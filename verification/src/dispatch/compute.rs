//! The compute pipeline over the regions of a staging buffer.

use vstd::prelude::*;
use std::sync::Arc;
use super::constants::{ConstantEntry, images, pack, spec_constants_fit, specialization_map};
use super::masks::SHADER_STAGE_COMPUTE;
use super::region::StagingBufferRegion;
use super::staging::{StagingBuffer, StagingBufferView};
use crate::device::{Device, ShaderModule};
use crate::driver::{Call, Reply, ReplyKind};
use crate::error::{Error, ErrorCode};
use crate::layout::{concat, lengths, offset};
use crate::vk::enums::{VkDescriptorType, VkResult, VkShaderStageFlagBits, VkStructureType};
use crate::vk::types::{
    VkBuffer, VkComputePipelineCreateInfo, VkDescriptorBufferInfo, VkDescriptorPool,
    VkDescriptorPoolCreateInfo, VkDescriptorPoolSize, VkDescriptorSet, VkDescriptorSetAllocateInfo,
    VkDescriptorSetLayout, VkDescriptorSetLayoutBinding, VkDescriptorSetLayoutCreateInfo,
    VkPipeline, VkPipelineCache, VkPipelineCacheCreateInfo, VkPipelineLayout,
    VkPipelineLayoutCreateInfo, VkPipelineShaderStageCreateInfo, VkPushConstantRange,
    VkSpecializationInfo, VkSpecializationMapEntry, VkWriteDescriptorSet,
};

verus! {

/// The bytes of the name of a shader's entry point, "main".
pub open spec fn entry_point() -> Seq<u8> {
    seq![109u8, 97u8, 105u8, 110u8]
}

/// The bindings of the descriptor set layout for `count` regions: binding
/// `i` is one storage buffer, visible to the compute stage.
pub open spec fn layout_bindings(count: nat) -> Seq<VkDescriptorSetLayoutBinding> {
    Seq::new(
        count,
        |i: int|
            VkDescriptorSetLayoutBinding {
                binding: i as u32,
                descriptorType: VkDescriptorType::VK_DESCRIPTOR_TYPE_STORAGE_BUFFER,
                descriptorCount: 1,
                stageFlags: SHADER_STAGE_COMPUTE,
            },
    )
}

/// The writes that fill `descriptor_set` for the regions `regions` of the
/// buffer `buffer`: binding `i` is the range of region `i`.
pub open spec fn descriptor_writes(
    descriptor_set: VkDescriptorSet,
    buffer: VkBuffer,
    regions: Seq<StagingBufferRegion>,
) -> Seq<VkWriteDescriptorSet> {
    Seq::new(
        regions.len(),
        |i: int|
            VkWriteDescriptorSet {
                sType: VkStructureType::VK_STRUCTURE_TYPE_WRITE_DESCRIPTOR_SET,
                dstSet: descriptor_set,
                dstBinding: i as u32,
                dstArrayElement: 0,
                descriptorCount: 1,
                descriptorType: VkDescriptorType::VK_DESCRIPTOR_TYPE_STORAGE_BUFFER,
                bufferInfo: VkDescriptorBufferInfo {
                    buffer,
                    offset: regions[i].copy_region.srcOffset,
                    range: regions[i].copy_region.size,
                },
            },
    )
}

/// Where each of the constants with the byte images `images` lies in their
/// packed bytes: constant `i` has number `i`, begins where the constants
/// before it end, and is as long as its byte image.
pub open spec fn specialization_entries(images: Seq<Seq<u8>>) -> Seq<VkSpecializationMapEntry> {
    Seq::new(
        images.len(),
        |i: int|
            VkSpecializationMapEntry {
                constantID: i as u32,
                offset: offset(lengths(images), i) as u32,
                size: images[i].len() as usize,
            },
    )
}

/// The push-constant range of a pipeline layout: none for no bytes, else
/// the first `size` bytes, for the compute stage.
pub open spec fn push_constant_range(size: u32) -> Option<VkPushConstantRange> {
    if size == 0 {
        None
    } else {
        Some(VkPushConstantRange { stageFlags: SHADER_STAGE_COMPUTE, offset: 0, size })
    }
}

/// Whether `range` covers the `size` push-constant bytes of the compute
/// stage that begin at `offset`.
pub open spec fn covers(range: Option<VkPushConstantRange>, offset: int, size: int) -> bool {
    range matches Some(declared) && declared.stageFlags == SHADER_STAGE_COMPUTE
        && declared.offset <= offset && offset + size <= declared.offset + declared.size
}

/// A compute pipeline over the regions of a staging buffer.
#[derive(Debug)]
pub struct ComputePipeline {
    pub handle: VkPipeline,
    pub cache: VkPipelineCache,
    pub layout: VkPipelineLayout,
    pub descriptor_pool: VkDescriptorPool,
    pub descriptor_set_layout: VkDescriptorSetLayout,
    pub descriptor_set: VkDescriptorSet,
    pub staging_buffer: Arc<StagingBuffer>,
    pub shader_module: ShaderModule,
    /// The room for push constants that the layout was made with, in
    /// bytes: its one range is `push_constant_range` of this.
    pub push_constant_size: u32,
}

impl ComputePipeline {
    /// Begins the making of a pipeline that runs `shader_module` over the
    /// regions of `staging_buffer`, with the specialization constants
    /// `spec_constants` and room for `push_constant_size` bytes of push
    /// constants.
    pub fn new(
        staging_buffer: Arc<StagingBuffer>,
        shader_module: &ShaderModule,
        spec_constants: Vec<ConstantEntry>,
        push_constant_size: u32,
    ) -> (r: ComputePipelineSetup)
        requires
            staging_buffer@.regions.len() <= u32::MAX,
            spec_constants_fit(spec_constants@),
        ensures
            r@ == ComputePipelineSetupView::begin(
                staging_buffer@,
                *shader_module,
                images(spec_constants@),
                push_constant_size,
            ),
    {
        ComputePipelineSetup {
            staging_buffer,
            shader_module: *shader_module,
            spec_constants,
            push_constant_size,
            stage: PipelineStage::DescriptorPool,
            descriptor_pool: VkDescriptorPool::null(),
            descriptor_set_layout: VkDescriptorSetLayout::null(),
            layout: VkPipelineLayout::null(),
            descriptor_set: VkDescriptorSet::null(),
            cache: VkPipelineCache::null(),
            handle: VkPipeline::null(),
        }
    }

    /// The staging buffer whose regions the pipeline works on.
    pub fn staging_buffer(&self) -> (r: &Arc<StagingBuffer>)
        ensures
            r == self.staging_buffer,
    {
        &self.staging_buffer
    }

    /// The device of the pipeline.
    pub open spec fn device(&self) -> Device {
        self.staging_buffer@.command_pool.device
    }

    /// Whether the pipeline has been released.
    pub open spec fn released(&self) -> bool {
        &&& self.handle.address == 0
        &&& self.cache.address == 0
        &&& self.layout.address == 0
        &&& self.descriptor_pool.address == 0
        &&& self.descriptor_set_layout.address == 0
    }

    /// The calls that give the pipeline back: the pipeline layout, the
    /// descriptor set layout, the descriptor pool, the pipeline and the
    /// pipeline cache are destroyed, in this order. None where it has been
    /// released before.
    pub open spec fn release_calls(&self) -> Seq<Call> {
        let device = self.device().handle();
        if self.released() {
            seq![]
        } else {
            seq![
                Call::DestroyPipelineLayout { device, layout: self.layout },
                Call::DestroyDescriptorSetLayout { device, layout: self.descriptor_set_layout },
                Call::DestroyDescriptorPool { device, descriptor_pool: self.descriptor_pool },
                Call::DestroyPipeline { device, pipeline: self.handle },
                Call::DestroyPipelineCache { device, cache: self.cache },
            ]
        }
    }

    /// The calls that give the pipeline back.
    pub fn to_release(&self) -> (calls: Vec<Call>)
        ensures
            calls@ == self.release_calls(),
    {
        let mut calls: Vec<Call> = Vec::new();
        let released = self.handle.is_null() && self.cache.is_null() && self.layout.is_null()
            && self.descriptor_pool.is_null() && self.descriptor_set_layout.is_null();
        if !released {
            let device = self.staging_buffer.command_pool().device().handle();
            calls.push(Call::DestroyPipelineLayout { device, layout: self.layout });
            calls.push(
                Call::DestroyDescriptorSetLayout { device, layout: self.descriptor_set_layout },
            );
            calls.push(
                Call::DestroyDescriptorPool { device, descriptor_pool: self.descriptor_pool },
            );
            calls.push(Call::DestroyPipeline { device, pipeline: self.handle });
            calls.push(Call::DestroyPipelineCache { device, cache: self.cache });
        }
        assert(calls@ =~= self.release_calls());
        calls
    }

    /// Releases the pipeline: says which calls give it back, and forgets
    /// its handles.
    pub fn release(&mut self) -> (calls: Vec<Call>)
        ensures
            calls@ == old(self).release_calls(),
            final(self).released(),
            final(self).descriptor_set.address == 0,
            final(self).staging_buffer == old(self).staging_buffer,
            final(self).shader_module == old(self).shader_module,
            final(self).push_constant_size == old(self).push_constant_size,
    {
        let calls = self.to_release();
        self.layout = VkPipelineLayout::null();
        self.descriptor_set_layout = VkDescriptorSetLayout::null();
        self.descriptor_pool = VkDescriptorPool::null();
        self.descriptor_set = VkDescriptorSet::null();
        self.handle = VkPipeline::null();
        self.cache = VkPipelineCache::null();
        assert(calls@ =~= old(self).release_calls());
        calls
    }
}

/// How far the making of a compute pipeline has come.
#[derive(Debug, Clone, Copy, PartialEq, Eq, Structural)]
pub enum PipelineStage {
    /// The descriptor pool is being created.
    DescriptorPool,
    /// The descriptor set layout is being created.
    SetLayout,
    /// The pipeline layout is being created.
    PipelineLayout,
    /// The descriptor set is being allocated.
    DescriptorSet,
    /// The descriptor set is being filled.
    Update,
    /// The pipeline cache is being created.
    Cache,
    /// The pipeline is being created.
    Pipeline,
    /// The pipeline is made.
    Ready,
    /// The driver returned this status, which is not success.
    Failed(VkResult),
}

/// The making of a [`ComputePipeline`].
#[derive(Debug)]
pub struct ComputePipelineSetup {
    staging_buffer: Arc<StagingBuffer>,
    shader_module: ShaderModule,
    spec_constants: Vec<ConstantEntry>,
    push_constant_size: u32,
    stage: PipelineStage,
    descriptor_pool: VkDescriptorPool,
    descriptor_set_layout: VkDescriptorSetLayout,
    layout: VkPipelineLayout,
    descriptor_set: VkDescriptorSet,
    cache: VkPipelineCache,
    handle: VkPipeline,
}

/// What the making of a compute pipeline holds. A handle is null until
/// the driver has given it.
pub struct ComputePipelineSetupView {
    pub staging_buffer: StagingBufferView,
    pub shader_module: ShaderModule,
    /// The byte images of the specialization constants.
    pub spec_constants: Seq<Seq<u8>>,
    pub push_constant_size: u32,
    pub stage: PipelineStage,
    pub descriptor_pool: VkDescriptorPool,
    pub descriptor_set_layout: VkDescriptorSetLayout,
    pub layout: VkPipelineLayout,
    pub descriptor_set: VkDescriptorSet,
    pub cache: VkPipelineCache,
    pub handle: VkPipeline,
}

impl ComputePipelineSetupView {
    /// The making of a pipeline, of which nothing has happened yet.
    pub open spec fn begin(
        staging_buffer: StagingBufferView,
        shader_module: ShaderModule,
        spec_constants: Seq<Seq<u8>>,
        push_constant_size: u32,
    ) -> Self {
        ComputePipelineSetupView {
            staging_buffer,
            shader_module,
            spec_constants,
            push_constant_size,
            stage: PipelineStage::DescriptorPool,
            descriptor_pool: VkDescriptorPool::at(0),
            descriptor_set_layout: VkDescriptorSetLayout::at(0),
            layout: VkPipelineLayout::at(0),
            descriptor_set: VkDescriptorSet::at(0),
            cache: VkPipelineCache::at(0),
            handle: VkPipeline::at(0),
        }
    }

    /// The device of the pipeline.
    pub open spec fn device(self) -> Device {
        self.staging_buffer.command_pool.device
    }

    /// The shape of the reply that is waited for; none once the making has
    /// ended.
    pub open spec fn awaits(self) -> Option<ReplyKind> {
        match self.stage {
            PipelineStage::Update => Some(ReplyKind::Done),
            PipelineStage::Ready | PipelineStage::Failed(_) => None,
            _ => Some(ReplyKind::Handle),
        }
    }

    /// Whether `c` is the call to make now.
    ///
    /// In order: a descriptor pool for one set with one storage-buffer
    /// descriptor for each region; a descriptor set layout with one binding
    /// for each region; a pipeline layout with that set layout and the
    /// push-constant range; the descriptor set, from the pool; one update
    /// that points binding `i` at the range of region `i` in the
    /// device-local buffer; an empty pipeline cache; the pipeline, whose
    /// compute stage runs the entry point "main" of the shader module with
    /// the packed specialization constants.
    pub open spec fn calls(self, c: Option<Call>) -> bool {
        let device = self.device().handle();
        let count = self.staging_buffer.regions.len();
        match self.stage {
            PipelineStage::DescriptorPool => c == Some(
                Call::CreateDescriptorPool {
                    device,
                    info: VkDescriptorPoolCreateInfo {
                        sType: VkStructureType::VK_STRUCTURE_TYPE_DESCRIPTOR_POOL_CREATE_INFO,
                        flags: 0,
                        maxSets: 1,
                        poolSizeCount: 1,
                        poolSize: VkDescriptorPoolSize {
                            descriptorType: VkDescriptorType::VK_DESCRIPTOR_TYPE_STORAGE_BUFFER,
                            descriptorCount: count as u32,
                        },
                    },
                },
            ),
            PipelineStage::SetLayout => {
                &&& c matches Some(Call::CreateDescriptorSetLayout { device: on, info })
                &&& on == device
                &&& info.sType
                    == VkStructureType::VK_STRUCTURE_TYPE_DESCRIPTOR_SET_LAYOUT_CREATE_INFO
                &&& info.flags == 0
                &&& info.bindings@ == layout_bindings(count)
            },
            PipelineStage::PipelineLayout => c == Some(
                Call::CreatePipelineLayout {
                    device,
                    info: VkPipelineLayoutCreateInfo {
                        sType: VkStructureType::VK_STRUCTURE_TYPE_PIPELINE_LAYOUT_CREATE_INFO,
                        flags: 0,
                        setLayoutCount: 1,
                        setLayout: self.descriptor_set_layout,
                        pushConstantRange: push_constant_range(self.push_constant_size),
                    },
                },
            ),
            PipelineStage::DescriptorSet => c == Some(
                Call::AllocateDescriptorSets {
                    device,
                    info: VkDescriptorSetAllocateInfo {
                        sType: VkStructureType::VK_STRUCTURE_TYPE_DESCRIPTOR_SET_ALLOCATE_INFO,
                        descriptorPool: self.descriptor_pool,
                        descriptorSetCount: 1,
                        setLayout: self.descriptor_set_layout,
                    },
                },
            ),
            PipelineStage::Update => {
                &&& c matches Some(Call::UpdateDescriptorSets { device: on, writes })
                &&& on == device
                &&& writes@ == descriptor_writes(
                    self.descriptor_set,
                    self.staging_buffer.device_buffer_memory.buffer,
                    self.staging_buffer.regions,
                )
            },
            PipelineStage::Cache => c == Some(
                Call::CreatePipelineCache {
                    device,
                    info: VkPipelineCacheCreateInfo {
                        sType: VkStructureType::VK_STRUCTURE_TYPE_PIPELINE_CACHE_CREATE_INFO,
                        flags: 0,
                        initialDataSize: 0,
                    },
                },
            ),
            PipelineStage::Pipeline => {
                &&& c matches Some(Call::CreateComputePipelines { device: on, cache, info })
                &&& on == device
                &&& cache == self.cache
                &&& info.sType == VkStructureType::VK_STRUCTURE_TYPE_COMPUTE_PIPELINE_CREATE_INFO
                &&& info.flags == 0
                &&& info.layout == self.layout
                &&& info.basePipelineHandle.address == 0
                &&& info.basePipelineIndex == 0
                &&& info.stage.sType
                    == VkStructureType::VK_STRUCTURE_TYPE_PIPELINE_SHADER_STAGE_CREATE_INFO
                &&& info.stage.flags == 0
                &&& info.stage.stage == VkShaderStageFlagBits::VK_SHADER_STAGE_COMPUTE_BIT
                &&& info.stage.module == self.shader_module.handle
                &&& info.stage.name@ == entry_point().push(0)
                &&& info.stage.specializationInfo.data@ == concat(self.spec_constants)
                &&& info.stage.specializationInfo.mapEntries@ == specialization_entries(
                    self.spec_constants,
                )
            },
            _ => c.is_none(),
        }
    }

    /// The making after the answer `reply` to the pending call: with the
    /// handle that came with success, one step further; with any other
    /// status, failed with that status.
    pub open spec fn replied(self, reply: Reply) -> Self {
        match (self.stage, reply) {
            (PipelineStage::DescriptorPool, Reply::Handle(VkResult::VK_SUCCESS, address)) => {
                ComputePipelineSetupView {
                    descriptor_pool: VkDescriptorPool::at(address),
                    stage: PipelineStage::SetLayout,
                    ..self
                }
            },
            (PipelineStage::SetLayout, Reply::Handle(VkResult::VK_SUCCESS, address)) => {
                ComputePipelineSetupView {
                    descriptor_set_layout: VkDescriptorSetLayout::at(address),
                    stage: PipelineStage::PipelineLayout,
                    ..self
                }
            },
            (PipelineStage::PipelineLayout, Reply::Handle(VkResult::VK_SUCCESS, address)) => {
                ComputePipelineSetupView {
                    layout: VkPipelineLayout::at(address),
                    stage: PipelineStage::DescriptorSet,
                    ..self
                }
            },
            (PipelineStage::DescriptorSet, Reply::Handle(VkResult::VK_SUCCESS, address)) => {
                ComputePipelineSetupView {
                    descriptor_set: VkDescriptorSet::at(address),
                    stage: PipelineStage::Update,
                    ..self
                }
            },
            (PipelineStage::Update, _) => ComputePipelineSetupView {
                stage: PipelineStage::Cache,
                ..self
            },
            (PipelineStage::Cache, Reply::Handle(VkResult::VK_SUCCESS, address)) => {
                ComputePipelineSetupView {
                    cache: VkPipelineCache::at(address),
                    stage: PipelineStage::Pipeline,
                    ..self
                }
            },
            (PipelineStage::Pipeline, Reply::Handle(VkResult::VK_SUCCESS, address)) => {
                ComputePipelineSetupView {
                    handle: VkPipeline::at(address),
                    stage: PipelineStage::Ready,
                    ..self
                }
            },
            (PipelineStage::Ready, _) | (PipelineStage::Failed(_), _) => self,
            (_, reply) => ComputePipelineSetupView {
                stage: PipelineStage::Failed(reply.status()),
                ..self
            },
        }
    }

    /// The calls that give back what a failed making had acquired, the
    /// later acquired first: the pipeline cache, the pipeline layout, the
    /// descriptor set layout, and the descriptor pool with its set; each
    /// only where it was acquired. None unless the making has failed.
    pub open spec fn unwind_calls(self) -> Seq<Call> {
        let device = self.device().handle();
        let cache = if self.cache.address == 0 {
            seq![]
        } else {
            seq![Call::DestroyPipelineCache { device, cache: self.cache }]
        };
        let layout = if self.layout.address == 0 {
            seq![]
        } else {
            seq![Call::DestroyPipelineLayout { device, layout: self.layout }]
        };
        let set_layout = if self.descriptor_set_layout.address == 0 {
            seq![]
        } else {
            seq![Call::DestroyDescriptorSetLayout { device, layout: self.descriptor_set_layout }]
        };
        let pool = if self.descriptor_pool.address == 0 {
            seq![]
        } else {
            seq![Call::DestroyDescriptorPool { device, descriptor_pool: self.descriptor_pool }]
        };
        if self.stage is Failed {
            cache + layout + set_layout + pool
        } else {
            seq![]
        }
    }
}

impl View for ComputePipelineSetup {
    type V = ComputePipelineSetupView;

    closed spec fn view(&self) -> ComputePipelineSetupView {
        ComputePipelineSetupView {
            staging_buffer: self.staging_buffer@,
            shader_module: self.shader_module,
            spec_constants: images(self.spec_constants@),
            push_constant_size: self.push_constant_size,
            stage: self.stage,
            descriptor_pool: self.descriptor_pool,
            descriptor_set_layout: self.descriptor_set_layout,
            layout: self.layout,
            descriptor_set: self.descriptor_set,
            cache: self.cache,
            handle: self.handle,
        }
    }
}

impl ComputePipelineSetup {
    #[verifier::type_invariant]
    spec fn inv(self) -> bool {
        self.staging_buffer@.regions.len() <= u32::MAX && spec_constants_fit(
            self.spec_constants@,
        )
    }

    /// The bindings of the descriptor set layout for `count` regions.
    pub fn bindings(count: u32) -> (bindings: Vec<VkDescriptorSetLayoutBinding>)
        ensures
            bindings@ == layout_bindings(count as nat),
    {
        let mut bindings: Vec<VkDescriptorSetLayoutBinding> = Vec::new();
        let mut i: u32 = 0;
        while i < count
            invariant
                i <= count,
                bindings@ == layout_bindings(i as nat),
            decreases count - i,
        {
            bindings.push(
                VkDescriptorSetLayoutBinding::new(
                    VkDescriptorType::VK_DESCRIPTOR_TYPE_STORAGE_BUFFER,
                    VkShaderStageFlagBits::VK_SHADER_STAGE_COMPUTE_BIT.bits(),
                    i,
                ),
            );
            assert(bindings@ =~= layout_bindings((i + 1) as nat));
            i += 1;
        }
        bindings
    }

    /// The writes that fill `descriptor_set` for the regions `regions` of
    /// the buffer `buffer`.
    pub fn writes(
        descriptor_set: VkDescriptorSet,
        buffer: VkBuffer,
        regions: &Vec<StagingBufferRegion>,
    ) -> (writes: Vec<VkWriteDescriptorSet>)
        requires
            regions@.len() <= u32::MAX,
        ensures
            writes@ == descriptor_writes(descriptor_set, buffer, regions@),
    {
        let mut writes: Vec<VkWriteDescriptorSet> = Vec::new();
        let mut i: usize = 0;
        while i < regions.len()
            invariant
                i <= regions@.len(),
                regions@.len() <= u32::MAX,
                writes@ == descriptor_writes(descriptor_set, buffer, regions@.take(i as int)),
            decreases regions@.len() - i,
        {
            let region = &regions[i];
            writes.push(
                VkWriteDescriptorSet::new(
                    descriptor_set,
                    VkDescriptorType::VK_DESCRIPTOR_TYPE_STORAGE_BUFFER,
                    i as u32,
                    VkDescriptorBufferInfo::new(buffer, region.offset(), region.size()),
                ),
            );
            assert(writes@ =~= descriptor_writes(descriptor_set, buffer, regions@.take(i + 1)));
            i += 1;
        }
        assert(regions@.take(regions@.len() as int) =~= regions@);
        writes
    }

    /// The call to make now.
    pub fn call(&self) -> (c: Option<Call>)
        ensures
            self@.calls(c),
    {
        proof {
            use_type_invariant(self);
        }
        let device = self.staging_buffer.command_pool().device().handle();
        let regions = self.staging_buffer.regions();
        match self.stage {
            PipelineStage::DescriptorPool => {
                let size = VkDescriptorPoolSize::new(
                    VkDescriptorType::VK_DESCRIPTOR_TYPE_STORAGE_BUFFER,
                    regions.len() as u32,
                );
                Some(
                    Call::CreateDescriptorPool {
                        device,
                        info: VkDescriptorPoolCreateInfo::new(1, size),
                    },
                )
            },
            PipelineStage::SetLayout => Some(
                Call::CreateDescriptorSetLayout {
                    device,
                    info: VkDescriptorSetLayoutCreateInfo::new(
                        Self::bindings(regions.len() as u32),
                    ),
                },
            ),
            PipelineStage::PipelineLayout => {
                let range = if self.push_constant_size == 0 {
                    None
                } else {
                    Some(
                        VkPushConstantRange {
                            stageFlags: VkShaderStageFlagBits::VK_SHADER_STAGE_COMPUTE_BIT.bits(),
                            offset: 0,
                            size: self.push_constant_size,
                        },
                    )
                };
                Some(
                    Call::CreatePipelineLayout {
                        device,
                        info: VkPipelineLayoutCreateInfo::new(self.descriptor_set_layout, range),
                    },
                )
            },
            PipelineStage::DescriptorSet => Some(
                Call::AllocateDescriptorSets {
                    device,
                    info: VkDescriptorSetAllocateInfo::new(
                        self.descriptor_pool,
                        self.descriptor_set_layout,
                    ),
                },
            ),
            PipelineStage::Update => Some(
                Call::UpdateDescriptorSets {
                    device,
                    writes: Self::writes(
                        self.descriptor_set,
                        self.staging_buffer.device_buffer_memory().buffer(),
                        regions,
                    ),
                },
            ),
            PipelineStage::Cache => Some(
                Call::CreatePipelineCache { device, info: VkPipelineCacheCreateInfo::new() },
            ),
            PipelineStage::Pipeline => {
                let data = pack(&self.spec_constants);
                let entries = specialization_map(&self.spec_constants);
                assert(entries@ =~= specialization_entries(images(self.spec_constants@)));
                let main: Vec<u8> = vec![109u8, 97u8, 105u8, 110u8];
                assert(main@ =~= entry_point());
                match crate::names::c_string(main.as_slice()) {
                    Ok(name) => {
                        let stage = VkPipelineShaderStageCreateInfo::new(
                            VkShaderStageFlagBits::VK_SHADER_STAGE_COMPUTE_BIT,
                            self.shader_module.handle(),
                            name,
                            VkSpecializationInfo::new(entries, data),
                        );
                        Some(
                            Call::CreateComputePipelines {
                                device,
                                cache: self.cache,
                                info: VkComputePipelineCreateInfo::new(stage, self.layout),
                            },
                        )
                    },
                    Err(_) => {
                        assert(forall|k: int| 0 <= k < main@.len() ==> main@[k] != 0);
                        None
                    },
                }
            },
            _ => None,
        }
    }

    /// Takes the answer to the pending call.
    pub fn reply(self, reply: Reply) -> (next: Self)
        requires
            self@.awaits() == Some(reply.kind()),
        ensures
            next@ == self@.replied(reply),
    {
        proof {
            use_type_invariant(&self);
        }
        let mut descriptor_pool = self.descriptor_pool;
        let mut descriptor_set_layout = self.descriptor_set_layout;
        let mut layout = self.layout;
        let mut descriptor_set = self.descriptor_set;
        let mut cache = self.cache;
        let mut handle = self.handle;
        let stage = match (self.stage, reply) {
            (PipelineStage::DescriptorPool, Reply::Handle(VkResult::VK_SUCCESS, address)) => {
                descriptor_pool = VkDescriptorPool::from_address(address);
                PipelineStage::SetLayout
            },
            (PipelineStage::SetLayout, Reply::Handle(VkResult::VK_SUCCESS, address)) => {
                descriptor_set_layout = VkDescriptorSetLayout::from_address(address);
                PipelineStage::PipelineLayout
            },
            (PipelineStage::PipelineLayout, Reply::Handle(VkResult::VK_SUCCESS, address)) => {
                layout = VkPipelineLayout::from_address(address);
                PipelineStage::DescriptorSet
            },
            (PipelineStage::DescriptorSet, Reply::Handle(VkResult::VK_SUCCESS, address)) => {
                descriptor_set = VkDescriptorSet::from_address(address);
                PipelineStage::Update
            },
            (PipelineStage::Update, _) => PipelineStage::Cache,
            (PipelineStage::Cache, Reply::Handle(VkResult::VK_SUCCESS, address)) => {
                cache = VkPipelineCache::from_address(address);
                PipelineStage::Pipeline
            },
            (PipelineStage::Pipeline, Reply::Handle(VkResult::VK_SUCCESS, address)) => {
                handle = VkPipeline::from_address(address);
                PipelineStage::Ready
            },
            (PipelineStage::Ready, _) => PipelineStage::Ready,
            (PipelineStage::Failed(status), _) => PipelineStage::Failed(status),
            (_, reply) => PipelineStage::Failed(reply.status()),
        };
        ComputePipelineSetup {
            staging_buffer: self.staging_buffer,
            shader_module: self.shader_module,
            spec_constants: self.spec_constants,
            push_constant_size: self.push_constant_size,
            stage,
            descriptor_pool,
            descriptor_set_layout,
            layout,
            descriptor_set,
            cache,
            handle,
        }
    }

    /// The calls that give back what a failed making had acquired, the
    /// later acquired first.
    pub fn unwind(&self) -> (calls: Vec<Call>)
        ensures
            calls@ == self@.unwind_calls(),
    {
        let mut calls: Vec<Call> = Vec::new();
        match self.stage {
            PipelineStage::Failed(_) => {
                let device = self.staging_buffer.command_pool().device().handle();
                if !self.cache.is_null() {
                    calls.push(Call::DestroyPipelineCache { device, cache: self.cache });
                }
                if !self.layout.is_null() {
                    calls.push(Call::DestroyPipelineLayout { device, layout: self.layout });
                }
                if !self.descriptor_set_layout.is_null() {
                    calls.push(
                        Call::DestroyDescriptorSetLayout {
                            device,
                            layout: self.descriptor_set_layout,
                        },
                    );
                }
                if !self.descriptor_pool.is_null() {
                    calls.push(
                        Call::DestroyDescriptorPool {
                            device,
                            descriptor_pool: self.descriptor_pool,
                        },
                    );
                }
            },
            _ => {},
        }
        assert(calls@ =~= self@.unwind_calls());
        calls
    }

    /// Whether the pipeline is made.
    pub fn is_ready(&self) -> (r: bool)
        ensures
            r == (self@.stage is Ready),
    {
        match self.stage {
            PipelineStage::Ready => true,
            _ => false,
        }
    }

    /// The pipeline with the handles acquired so far, which are all once
    /// the making has ended well.
    pub fn into_made(self) -> (made: ComputePipeline)
        ensures
            made.handle == self@.handle,
            made.cache == self@.cache,
            made.layout == self@.layout,
            made.descriptor_pool == self@.descriptor_pool,
            made.descriptor_set_layout == self@.descriptor_set_layout,
            made.descriptor_set == self@.descriptor_set,
            made.staging_buffer@ == self@.staging_buffer,
            made.shader_module == self@.shader_module,
            made.push_constant_size == self@.push_constant_size,
    {
        ComputePipeline {
            handle: self.handle,
            cache: self.cache,
            layout: self.layout,
            descriptor_pool: self.descriptor_pool,
            descriptor_set_layout: self.descriptor_set_layout,
            descriptor_set: self.descriptor_set,
            staging_buffer: self.staging_buffer,
            shader_module: self.shader_module,
            push_constant_size: self.push_constant_size,
        }
    }

    /// The pipeline, once the making has ended, or the error of the
    /// status that the driver returned.
    pub fn finish(self) -> (r: Result<ComputePipeline, Error>)
        requires
            self@.awaits().is_none(),
        ensures
            match self@.stage {
                PipelineStage::Ready => {
                    &&& r matches Ok(made)
                    &&& made.handle == self@.handle
                    &&& made.cache == self@.cache
                    &&& made.layout == self@.layout
                    &&& made.descriptor_pool == self@.descriptor_pool
                    &&& made.descriptor_set_layout == self@.descriptor_set_layout
                    &&& made.descriptor_set == self@.descriptor_set
                    &&& made.staging_buffer@ == self@.staging_buffer
                    &&& made.shader_module == self@.shader_module
                    &&& made.push_constant_size == self@.push_constant_size
                },
                PipelineStage::Failed(status) => r.is_err() && r.unwrap_err().spec_code()
                    == ErrorCode::VkResult(status),
                _ => false,
            },
    {
        match self.stage {
            PipelineStage::Failed(status) => Err(Error::new(ErrorCode::VkResult(status))),
            _ => Ok(
                ComputePipeline {
                    handle: self.handle,
                    cache: self.cache,
                    layout: self.layout,
                    descriptor_pool: self.descriptor_pool,
                    descriptor_set_layout: self.descriptor_set_layout,
                    descriptor_set: self.descriptor_set,
                    staging_buffer: self.staging_buffer,
                    shader_module: self.shader_module,
                    push_constant_size: self.push_constant_size,
                },
            ),
        }
    }
}

} // verus!
