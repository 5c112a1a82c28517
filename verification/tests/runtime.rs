//! The library run against a driver that lives in memory: buffers are byte
//! vectors, command buffers are lists of commands, and shaders are
//! functions.

use std::collections::{BTreeMap, BTreeSet};
use std::sync::Arc;

use filum::buffer::{Buffer, BufferSetup};
use filum::context::{Context, ContextSetup};
use filum::device::{
    find_memory_type, select_compute_family, BufferMemory, BufferMemorySetup, CommandPool,
    CommandPoolSetup, DeviceBuilder, ShaderModule, ShaderModuleSetup, ShaderModuleSource,
};
use filum::dispatch::{
    constants_fit, pack, packed_within, push_constants_fit, specialization_map, CommandDispatch,
    CommandDispatchSetup,
    ComputePipeline, ComputePipelineSetup, ConstantEntry, RegionAccess, StagingBuffer,
    StagingBufferSetup, Submission, WorkgroupCount,
};
use filum::driver::{Call, Command, Reply};
use filum::error::{Error, ErrorCode};
use filum::instance::{Instance, InstanceSetup, PhysicalDevicesBuilder, QueueFamily};
use filum::names::c_string;
use filum::pipeline::{
    teardown, DispatchBuilder, Pipeline, PipelineBuilder, PipelineDispatch, PipelineSetup,
};
use filum::view::{
    BindingArray, BindingValue, BindingVariant, BufferLayout, BufferView, BufferViewBuilder,
    BufferViewSetup, Layout,
};
use filum::vk::enums::{
    VkAccessFlagBits, VkBufferUsageFlagBits, VkDescriptorType, VkMemoryPropertyFlagBits,
    VkPipelineBindPoint, VkPipelineStageFlagBits, VkQueueFlagBits, VkResult,
    VkShaderStageFlagBits, VkSharingMode, VkStructureType,
};
use filum::vk::types::{
    VkExtent3D, VkMemoryHeap, VkMemoryRequirements, VkMemoryType, VkPhysicalDevice,
    VkPhysicalDeviceMemoryProperties, VkQueueFamilyProperties, VK_WHOLE_SIZE,
};

// ---------------------------------------------------------------------
// The driver in memory.

const FIBONACCI: u8 = 1;
const IDENTITY: u8 = 2;
const SUM: u8 = 3;
const SCALE: u8 = 4;
const ECHO_SPECIALIZATION: u8 = 5;
const ECHO_PUSH: u8 = 6;
const CCL_COLUMN: u8 = 7;
const CCL_MERGE: u8 = 8;
const CCL_RELABEL: u8 = 9;

fn shader_code(id: u8) -> Vec<u8> {
    vec![id, 0, 0, 0]
}

struct MadePipeline {
    code: Vec<u8>,
    data: Vec<u8>,
    entries: Vec<(u32, u32, usize)>,
}

struct Fake {
    next: usize,
    live: BTreeSet<usize>,
    log: Vec<String>,
    calls: Vec<Call>,
    fail: Option<(String, usize, VkResult)>,
    seen: BTreeMap<String, usize>,
    devices: Vec<usize>,
    families: Vec<VkQueueFamilyProperties>,
    memory_types: Vec<u32>,
    memory_type_bits: u32,
    files: BTreeMap<String, Vec<u8>>,
    buffers: BTreeMap<usize, Vec<u8>>,
    bound: BTreeMap<usize, usize>,
    mappings: BTreeMap<usize, usize>,
    recordings: BTreeMap<usize, Vec<Command>>,
    sets: BTreeMap<usize, BTreeMap<u32, (usize, u64, u64)>>,
    modules: BTreeMap<usize, Vec<u8>>,
    pipelines: BTreeMap<usize, MadePipeline>,
    ranges: BTreeMap<usize, Option<(u32, u32, u32)>>,
    one_buffer: bool,
    to_write: Vec<u8>,
    read: Vec<u8>,
}

fn family(flags: u32) -> VkQueueFamilyProperties {
    VkQueueFamilyProperties {
        queueFlags: flags,
        queueCount: 1,
        timestampValidBits: 0,
        minImageTransferGranularity: VkExtent3D { width: 1, height: 1, depth: 1 },
    }
}

fn name_of(call: &Call) -> String {
    let text = format!("{:?}", call);
    let end = text.find(|c: char| c == ' ' || c == '{').unwrap_or(text.len());
    text[..end].to_string()
}

impl Fake {
    fn new() -> Fake {
        Fake {
            next: 0x1000,
            live: BTreeSet::new(),
            log: Vec::new(),
            calls: Vec::new(),
            fail: None,
            seen: BTreeMap::new(),
            devices: vec![0x10],
            families: vec![family(0x1), family(0x2 | 0x4)],
            memory_types: vec![0x1, 0x2 | 0x4, 0x2 | 0x8, 0x2 | 0x4 | 0x8],
            memory_type_bits: 0xf,
            files: BTreeMap::new(),
            buffers: BTreeMap::new(),
            bound: BTreeMap::new(),
            mappings: BTreeMap::new(),
            recordings: BTreeMap::new(),
            sets: BTreeMap::new(),
            modules: BTreeMap::new(),
            pipelines: BTreeMap::new(),
            ranges: BTreeMap::new(),
            one_buffer: false,
            to_write: Vec::new(),
            read: Vec::new(),
        }
    }

    fn failing(kind: &str, nth: usize, status: VkResult) -> Fake {
        let mut fake = Fake::new();
        fake.fail = Some((kind.to_string(), nth, status));
        fake
    }

    fn make(&mut self) -> usize {
        self.next += 0x10;
        self.live.insert(self.next);
        self.next
    }

    fn status(&mut self, kind: &str) -> VkResult {
        let count = self.seen.entry(kind.to_string()).or_insert(0);
        let nth = *count;
        *count += 1;
        match &self.fail {
            Some((failing, at, status)) if failing == kind && *at == nth => *status,
            _ => VkResult::VK_SUCCESS,
        }
    }

    fn created(&mut self, kind: &str) -> Reply {
        match self.status(kind) {
            VkResult::VK_SUCCESS => Reply::Handle(VkResult::VK_SUCCESS, self.make()),
            status => Reply::Handle(status, 0),
        }
    }

    fn memory_properties(&self) -> VkPhysicalDeviceMemoryProperties {
        let mut types = [VkMemoryType { propertyFlags: 0, heapIndex: 0 }; 32];
        for (i, flags) in self.memory_types.iter().enumerate() {
            types[i].propertyFlags = *flags;
        }
        VkPhysicalDeviceMemoryProperties {
            memoryTypeCount: self.memory_types.len() as u32,
            memoryTypes: types,
            memoryHeapCount: 1,
            memoryHeaps: [VkMemoryHeap { size: 1 << 30, flags: 1 }; 16],
        }
    }

    fn perform(&mut self, call: Call) -> Reply {
        let kind = name_of(&call);
        self.log.push(kind.clone());
        self.calls.push(call.clone());
        match call {
            Call::CreateInstance { .. }
            | Call::CreateDevice { .. }
            | Call::CreateCommandPool { .. }
            | Call::AllocateMemory { .. }
            | Call::AllocateCommandBuffers { .. }
            | Call::CreateFence { .. }
            | Call::CreateDescriptorPool { .. }
            | Call::CreateDescriptorSetLayout { .. }
            | Call::CreatePipelineCache { .. } => self.created(&kind),
            Call::CreatePipelineLayout { info, .. } => {
                let reply = self.created(&kind);
                if let Reply::Handle(VkResult::VK_SUCCESS, address) = reply {
                    let range = info.pushConstantRange.map(|r| (r.stageFlags, r.offset, r.size));
                    self.ranges.insert(address, range);
                }
                reply
            },
            Call::GetDeviceQueue { .. } => Reply::Handle(VkResult::VK_SUCCESS, 0x20),
            Call::AllocateDescriptorSets { .. } => match self.status(&kind) {
                VkResult::VK_SUCCESS => {
                    self.next += 0x10;
                    Reply::Handle(VkResult::VK_SUCCESS, self.next)
                },
                status => Reply::Handle(status, 0),
            },
            Call::DestroyInstance { instance } => self.destroyed(instance.address),
            Call::DestroyDevice { device } => self.destroyed(device.address),
            Call::DestroyCommandPool { command_pool, .. } => self.destroyed(command_pool.address),
            Call::DestroyShaderModule { shader_module, .. } => {
                self.destroyed(shader_module.address)
            },
            Call::DestroyBuffer { buffer, .. } => self.destroyed(buffer.address),
            Call::FreeMemory { memory, .. } => self.destroyed(memory.address),
            Call::FreeCommandBuffers { command_buffer, .. } => {
                self.destroyed(command_buffer.address)
            },
            Call::DestroyFence { fence, .. } => self.destroyed(fence.address),
            Call::DestroyDescriptorPool { descriptor_pool, .. } => {
                self.destroyed(descriptor_pool.address)
            },
            Call::DestroyDescriptorSetLayout { layout, .. } => self.destroyed(layout.address),
            Call::DestroyPipelineLayout { layout, .. } => self.destroyed(layout.address),
            Call::DestroyPipelineCache { cache, .. } => self.destroyed(cache.address),
            Call::DestroyPipeline { pipeline, .. } => self.destroyed(pipeline.address),
            Call::EnumeratePhysicalDevices { .. } => {
                let status = self.status(&kind);
                let devices = self.devices.iter().map(|a| VkPhysicalDevice::from_address(*a));
                Reply::PhysicalDevices(status, devices.collect())
            },
            Call::GetPhysicalDeviceQueueFamilyProperties { .. } => {
                Reply::QueueFamilies(self.families.clone())
            },
            Call::GetPhysicalDeviceMemoryProperties { .. } => {
                Reply::MemoryProperties(self.memory_properties())
            },
            Call::ReadFile { path } => match self.files.get(&path) {
                Some(bytes) => Reply::File(Ok(bytes.clone())),
                None => Reply::File(Err(format!("no file {}", path))),
            },
            Call::CreateShaderModule { info, .. } => {
                let reply = self.created(&kind);
                if let Reply::Handle(VkResult::VK_SUCCESS, address) = reply {
                    assert_eq!(info.codeSize, info.code.len());
                    self.modules.insert(address, info.code.clone());
                }
                reply
            },
            Call::CreateBuffer { info, .. } => {
                if self.one_buffer && !self.buffers.is_empty() {
                    let address = *self.buffers.keys().next().unwrap();
                    return Reply::Handle(VkResult::VK_SUCCESS, address);
                }
                let reply = self.created(&kind);
                if let Reply::Handle(VkResult::VK_SUCCESS, address) = reply {
                    self.buffers.insert(address, vec![0; info.size as usize]);
                }
                reply
            },
            Call::GetBufferMemoryRequirements { buffer, .. } => {
                let size = self.buffers[&buffer.address].len() as u64;
                Reply::MemoryRequirements(VkMemoryRequirements {
                    size: (size + 15) / 16 * 16,
                    alignment: 16,
                    memoryTypeBits: self.memory_type_bits,
                })
            },
            Call::BindBufferMemory { buffer, memory, .. } => {
                let status = self.status(&kind);
                if status == VkResult::VK_SUCCESS {
                    self.bound.insert(memory.address, buffer.address);
                }
                Reply::Status(status)
            },
            Call::MapMemory { memory, .. } => match self.status(&kind) {
                VkResult::VK_SUCCESS => {
                    self.next += 0x10;
                    self.mappings.insert(self.next, self.bound[&memory.address]);
                    Reply::Handle(VkResult::VK_SUCCESS, self.next)
                },
                status => Reply::Handle(status, 0),
            },
            Call::UnmapMemory { memory, .. } => {
                let buffer = self.bound[&memory.address];
                self.mappings.retain(|_, mapped| *mapped != buffer);
                Reply::Done
            },
            Call::FlushMappedMemoryRanges { .. }
            | Call::InvalidateMappedMemoryRanges { .. }
            | Call::ResetFences { .. }
            | Call::WaitForFences { .. } => Reply::Status(self.status(&kind)),
            Call::WriteMapped { mapped, offset, size } => {
                let buffer = self.mappings[&mapped];
                let bytes = self.buffers.get_mut(&buffer).unwrap();
                let count = self.to_write.len().min(size as usize);
                let at = offset as usize;
                bytes[at..at + count].copy_from_slice(&self.to_write[..count]);
                Reply::Done
            },
            Call::ReadMapped { mapped, offset, size } => {
                let buffer = self.mappings[&mapped];
                let at = offset as usize;
                self.read = self.buffers[&buffer][at..at + size as usize].to_vec();
                Reply::Done
            },
            Call::Record { command_buffer, commands, .. } => {
                let status = self.status(&kind);
                if status == VkResult::VK_SUCCESS {
                    self.recordings.insert(command_buffer.address, commands);
                }
                Reply::Status(status)
            },
            Call::QueueSubmit { submit, .. } => {
                let status = self.status(&kind);
                if status == VkResult::VK_SUCCESS {
                    let commands = self.recordings[&submit.commandBuffer.address].clone();
                    self.run(&commands);
                }
                Reply::Status(status)
            },
            Call::UpdateDescriptorSets { writes, .. } => {
                for write in writes {
                    let set = self.sets.entry(write.dstSet.address).or_default();
                    let info = write.bufferInfo;
                    set.insert(write.dstBinding, (info.buffer.address, info.offset, info.range));
                }
                Reply::Done
            },
            Call::CreateComputePipelines { info, .. } => {
                let reply = self.created(&kind);
                if let Reply::Handle(VkResult::VK_SUCCESS, address) = reply {
                    let stage = info.stage;
                    assert_eq!(stage.name, b"main\0".to_vec());
                    let made = MadePipeline {
                        code: self.modules[&stage.module.address].clone(),
                        data: stage.specializationInfo.data.clone(),
                        entries: stage
                            .specializationInfo
                            .mapEntries
                            .iter()
                            .map(|e| (e.constantID, e.offset, e.size))
                            .collect(),
                    };
                    self.pipelines.insert(address, made);
                }
                reply
            },
        }
    }

    fn destroyed(&mut self, address: usize) -> Reply {
        let live = self.live.remove(&address);
        assert!(live || self.one_buffer, "handle {:#x} is not live", address);
        Reply::Done
    }

    fn run(&mut self, commands: &[Command]) {
        let mut pipeline = 0usize;
        let mut set = 0usize;
        let mut push: Vec<u8> = Vec::new();
        for command in commands {
            match command {
                Command::CopyBuffer { src, dst, region } => {
                    let from = region.srcOffset as usize;
                    let to = region.dstOffset as usize;
                    let size = region.size as usize;
                    let bytes = self.buffers[&src.address][from..from + size].to_vec();
                    let into = self.buffers.get_mut(&dst.address).unwrap();
                    into[to..to + size].copy_from_slice(&bytes);
                },
                Command::PipelineBarrier { .. } => {},
                Command::PushConstants { layout, stage_flags, data, offset } => {
                    assert_eq!(*offset, 0);
                    let (stages, from, size) =
                        self.ranges[&layout.address].expect("the layout has no range");
                    assert_eq!(stages & *stage_flags, *stage_flags);
                    assert!(from <= *offset);
                    assert!(*offset as usize + data.len() <= (from + size) as usize);
                    push = data.clone();
                },
                Command::BindPipeline { pipeline: bound, .. } => pipeline = bound.address,
                Command::BindDescriptorSets { descriptor_set, first_set, .. } => {
                    assert_eq!(*first_set, 0);
                    set = descriptor_set.address;
                },
                Command::Dispatch { x, y, z } => self.shade(pipeline, set, &push, (*x, *y, *z)),
            }
        }
    }

    fn shade(&mut self, pipeline: usize, set: usize, push: &[u8], grid: (u32, u32, u32)) {
        let made = &self.pipelines[&pipeline];
        let id = made.code[0];
        let constants: Vec<Vec<u8>> = made
            .entries
            .iter()
            .map(|(_, offset, size)| made.data[*offset as usize..*offset as usize + size].to_vec())
            .collect();
        let bindings: Vec<(usize, usize, usize)> = self.sets[&set]
            .values()
            .map(|(buffer, offset, range)| (*buffer, *offset as usize, *range as usize))
            .collect();
        let mut regions: Vec<Vec<u8>> = bindings
            .iter()
            .map(|(buffer, offset, range)| self.buffers[buffer][*offset..*offset + *range].to_vec())
            .collect();
        shader(id, &mut regions, &constants, push, grid);
        for ((buffer, offset, range), bytes) in bindings.iter().zip(regions.iter()) {
            self.buffers.get_mut(buffer).unwrap()[*offset..*offset + *range]
                .copy_from_slice(bytes);
        }
    }
}

fn words(bytes: &[u8]) -> Vec<u32> {
    bytes.chunks(4).map(|c| u32::from_ne_bytes([c[0], c[1], c[2], c[3]])).collect()
}

fn bytes_of(words: &[u32]) -> Vec<u8> {
    words.iter().flat_map(|w| w.to_ne_bytes()).collect()
}

fn ints(bytes: &[u8]) -> Vec<i32> {
    words(bytes).iter().map(|w| *w as i32).collect()
}

fn bytes_of_ints(ints: &[i32]) -> Vec<u8> {
    ints.iter().flat_map(|w| w.to_ne_bytes()).collect()
}

fn root(labels: &[i32], mut at: usize) -> usize {
    while labels[at] >= 0 && labels[at] as usize != at {
        at = labels[at] as usize;
    }
    at
}

fn shader(
    id: u8,
    regions: &mut Vec<Vec<u8>>,
    constants: &[Vec<u8>],
    push: &[u8],
    grid: (u32, u32, u32),
) {
    let count = (grid.0 * grid.1 * grid.2) as usize;
    match id {
        FIBONACCI => {
            let mut out = words(&regions[0]);
            for i in 0..count.min(out.len()) {
                let (mut a, mut b) = (0u32, 1u32);
                for _ in 0..i {
                    let next = a.wrapping_add(b);
                    a = b;
                    b = next;
                }
                out[i] = a;
            }
            regions[0] = bytes_of(&out);
        },
        IDENTITY => {},
        SUM => {
            let first = words(&regions[0]);
            let mut second = words(&regions[1]);
            for i in 0..count.min(second.len()) {
                second[i] = second[i].wrapping_add(first[i]);
            }
            regions[1] = bytes_of(&second);
        },
        SCALE => {
            let scale = words(push)[0] as i32;
            let mut out = ints(&regions[0]);
            for i in 0..count.min(out.len()) {
                out[i] = out[i].wrapping_mul(scale);
            }
            regions[0] = bytes_of_ints(&out);
        },
        ECHO_SPECIALIZATION => {
            let all: Vec<u8> = constants.iter().flatten().copied().collect();
            regions[0][..all.len()].copy_from_slice(&all);
        },
        ECHO_PUSH => {
            regions[0][..push.len()].copy_from_slice(push);
        },
        CCL_COLUMN => {
            let width = words(&constants[0])[0] as usize;
            let height = words(&constants[1])[0] as usize;
            let mut labels = ints(&regions[0]);
            for x in 0..count.min(width) {
                for y in 1..height {
                    let (here, above) = (y * width + x, (y - 1) * width + x);
                    if labels[here] >= 0 && labels[above] >= 0 {
                        labels[here] = labels[above];
                    }
                }
            }
            regions[0] = bytes_of_ints(&labels);
        },
        CCL_MERGE => {
            let width = words(&constants[0])[0] as usize;
            let height = words(&constants[1])[0] as usize;
            let step = words(push)[0];
            let strip = 1usize << step;
            let mut labels = ints(&regions[0]);
            for group in 0..count {
                let right = (2 * group + 1) * strip;
                if right >= width {
                    continue;
                }
                for y in 0..height {
                    let (a, b) = (y * width + right - 1, y * width + right);
                    if labels[a] >= 0 && labels[b] >= 0 {
                        let (ra, rb) = (root(&labels, a), root(&labels, b));
                        let (low, high) = (ra.min(rb), ra.max(rb));
                        labels[high] = low as i32;
                    }
                }
            }
            regions[0] = bytes_of_ints(&labels);
        },
        CCL_RELABEL => {
            let mut labels = ints(&regions[0]);
            for i in 0..count.min(labels.len()) {
                if labels[i] >= 0 {
                    labels[i] = root(&labels, i) as i32;
                }
            }
            regions[0] = bytes_of_ints(&labels);
        },
        _ => panic!("no shader {}", id),
    }
}

// ---------------------------------------------------------------------
// Running the library's state machines against the driver.

fn drive<M, T>(
    fake: &mut Fake,
    mut machine: M,
    call: fn(&M) -> Option<Call>,
    reply: fn(M, Reply) -> M,
    unwind: fn(&M) -> Vec<Call>,
    finish: fn(M) -> Result<T, Error>,
) -> Result<T, Error> {
    while let Some(request) = call(&machine) {
        let kind = request.reply_kind();
        let answer = fake.perform(request);
        assert_eq!(answer.kind(), kind);
        machine = reply(machine, answer);
    }
    for request in unwind(&machine) {
        fake.perform(request);
    }
    finish(machine)
}

fn nothing<M>(_: &M) -> Vec<Call> {
    Vec::new()
}

fn context(fake: &mut Fake) -> Result<Arc<Context>, Error> {
    drive(
        fake,
        Context::new(),
        ContextSetup::call,
        ContextSetup::reply,
        ContextSetup::unwind,
        ContextSetup::finish,
    )
    .map(Arc::new)
}

fn buffer(fake: &mut Fake, context: &Arc<Context>, sizes: Vec<usize>) -> Result<Arc<Buffer>, Error> {
    assert!(StagingBuffer::total_size(&sizes).is_some());
    drive(
        fake,
        Buffer::new(context, sizes),
        BufferSetup::call,
        BufferSetup::reply,
        BufferSetup::unwind,
        BufferSetup::finish,
    )
    .map(Arc::new)
}

fn pipeline(
    fake: &mut Fake,
    buffer: &Arc<Buffer>,
    shader: u8,
    constants: Option<Vec<ConstantEntry>>,
) -> Result<Arc<Pipeline>, Error> {
    pipeline_with_room(fake, buffer, shader, constants, 0)
}

fn pipeline_with_room(
    fake: &mut Fake,
    buffer: &Arc<Buffer>,
    shader: u8,
    constants: Option<Vec<ConstantEntry>>,
    room: u32,
) -> Result<Arc<Pipeline>, Error> {
    let builder =
        PipelineBuilder::new(buffer).push_constant_size(room).shader_bytes(shader_code(shader));
    let setup = match constants {
        Some(constants) => {
            assert!(constants_fit(&constants));
            builder.specialization(constants).build()
        },
        None => builder.build(),
    };
    made_pipeline(fake, setup)
}

fn made_pipeline(fake: &mut Fake, setup: PipelineSetup) -> Result<Arc<Pipeline>, Error> {
    drive(
        fake,
        setup,
        PipelineSetup::call,
        PipelineSetup::reply,
        PipelineSetup::unwind,
        PipelineSetup::finish,
    )
    .map(Arc::new)
}

fn dispatch_once(fake: &mut Fake, pipeline: &Arc<Pipeline>, count: usize) -> Result<(), Error> {
    drive(
        fake,
        pipeline.dispatch(count),
        PipelineDispatch::call,
        PipelineDispatch::reply,
        PipelineDispatch::unwind,
        PipelineDispatch::finish,
    )
}

fn command_dispatch(
    fake: &mut Fake,
    setup: CommandDispatchSetup,
) -> Result<CommandDispatch, Error> {
    drive(
        fake,
        setup,
        CommandDispatchSetup::call,
        CommandDispatchSetup::reply,
        CommandDispatchSetup::unwind,
        CommandDispatchSetup::finish,
    )
}

fn submit(fake: &mut Fake, submission: Submission) -> Result<(), Error> {
    drive(fake, submission, Submission::call, Submission::reply, nothing, Submission::finish)
}

fn access(fake: &mut Fake, access: RegionAccess) -> Result<(), Error> {
    drive(fake, access, RegionAccess::call, RegionAccess::reply, nothing, RegionAccess::finish)
}

fn write(fake: &mut Fake, buffer: &Arc<Buffer>, region: usize, bytes: &[u8]) -> Result<(), Error> {
    fake.to_write = bytes.to_vec();
    access(fake, buffer.staging_buffer().write_region(region))
}

fn read(fake: &mut Fake, buffer: &Arc<Buffer>, region: usize) -> Result<Vec<u8>, Error> {
    fake.read = Vec::new();
    access(fake, buffer.staging_buffer().read_region(region))?;
    Ok(fake.read.clone())
}

fn code(result: Result<impl Sized, Error>) -> ErrorCode {
    match result {
        Ok(_) => panic!("an error was expected"),
        Err(error) => error.code().clone(),
    }
}

fn entry<const N: usize>(bytes: [u8; N]) -> ConstantEntry {
    ConstantEntry::new(bytes.to_vec())
}

// ---------------------------------------------------------------------
// The context.

#[test]
fn context_is_made_in_order() {
    let mut fake = Fake::new();
    let context = context(&mut fake).unwrap();
    assert_eq!(
        fake.log,
        vec![
            "CreateInstance",
            "EnumeratePhysicalDevices",
            "GetPhysicalDeviceQueueFamilyProperties",
            "CreateDevice",
            "GetDeviceQueue",
            "CreateCommandPool",
        ]
    );
    assert_ne!(context.instance().handle().address, 0);
    assert_eq!(context.device().physical_device().handle().address, 0x10);
    assert_eq!(context.device().queue().handle().address, 0x20);
    assert_eq!(context.device().queue().family().index(), 1);
    assert_eq!(context.command_pool().device().handle(), context.device().handle());
}

#[test]
fn instance_is_asked_for_with_the_names_and_version() {
    let call = Instance::new().call().unwrap();
    match call {
        Call::CreateInstance { info } => {
            assert_eq!(info.sType, VkStructureType::VK_STRUCTURE_TYPE_INSTANCE_CREATE_INFO);
            assert_eq!(info.flags, 0);
            assert_eq!(info.enabledLayerCount, 0);
            assert_eq!(info.enabledExtensionCount, 0);
            let application = info.applicationInfo;
            assert_eq!(application.sType, VkStructureType::VK_STRUCTURE_TYPE_APPLICATION_INFO);
            assert_eq!(application.applicationName, b"stala\0".to_vec());
            assert_eq!(application.engineName, b"Stalactite Engine\0".to_vec());
            assert_eq!(application.applicationVersion, 0);
            assert_eq!(application.engineVersion, 0);
            assert_eq!(application.apiVersion, 4198400);
        },
        other => panic!("unexpected call {:?}", other),
    }
}

#[test]
fn device_is_asked_for_with_one_queue_of_priority_zero() {
    let mut fake = Fake::new();
    context(&mut fake).unwrap();
    match &fake.calls[3] {
        Call::CreateDevice { physical_device, info } => {
            assert_eq!(physical_device.address, 0x10);
            assert_eq!(info.sType, VkStructureType::VK_STRUCTURE_TYPE_DEVICE_CREATE_INFO);
            assert_eq!(info.queueCreateInfoCount, 1);
            assert_eq!(info.queueCreateInfo.queueFamilyIndex, 1);
            assert_eq!(info.queueCreateInfo.queueCount, 1);
            assert_eq!(f32::from_bits(info.queueCreateInfo.queuePriorityBits), 0.0);
        },
        other => panic!("unexpected call {:?}", other),
    }
    match &fake.calls[4] {
        Call::GetDeviceQueue { queue_family_index, queue_index, .. } => {
            assert_eq!((*queue_family_index, *queue_index), (1, 0));
        },
        other => panic!("unexpected call {:?}", other),
    }
    match &fake.calls[5] {
        Call::CreateCommandPool { info, .. } => {
            assert_eq!(info.queueFamilyIndex, 1);
            assert_eq!(info.flags, 0x2);
        },
        other => panic!("unexpected call {:?}", other),
    }
}

#[test]
fn missing_compute_family_fails_and_leaks_nothing() {
    let mut fake = Fake::new();
    fake.families = vec![family(VkQueueFlagBits::VK_QUEUE_GRAPHICS_BIT.bits())];
    let result = context(&mut fake);
    assert_eq!(code(result), ErrorCode::SuitablePhysicalDeviceNotFound);
    assert_eq!(fake.log.last().unwrap(), "DestroyInstance");
    assert!(!fake.log.contains(&"CreateDevice".to_string()));
    assert!(fake.live.is_empty());
}

#[test]
fn no_physical_device_fails_and_leaks_nothing() {
    let mut fake = Fake::new();
    fake.devices = Vec::new();
    assert_eq!(code(context(&mut fake)), ErrorCode::SuitablePhysicalDeviceNotFound);
    assert_eq!(fake.log, vec!["CreateInstance", "EnumeratePhysicalDevices", "DestroyInstance"]);
    assert!(fake.live.is_empty());
}

#[test]
fn first_physical_device_and_first_compute_family_are_taken() {
    let mut fake = Fake::new();
    fake.devices = vec![0x30, 0x40];
    fake.families = vec![family(0x1), family(0x4), family(0x2), family(0x2)];
    let context = context(&mut fake).unwrap();
    assert_eq!(context.device().physical_device().handle().address, 0x30);
    assert_eq!(context.device().queue().family().index(), 2);
    assert!(context.device().queue().family().is_compute());
    assert_eq!(context.device().queue().family().queue_count(), 1);
}

#[test]
fn failing_calls_of_the_context_are_reported_and_unwound() {
    for (kind, expected_log_tail) in [
        ("CreateInstance", vec!["CreateInstance"]),
        ("EnumeratePhysicalDevices", vec!["EnumeratePhysicalDevices", "DestroyInstance"]),
        ("CreateDevice", vec!["CreateDevice", "DestroyInstance"]),
        ("CreateCommandPool", vec!["CreateCommandPool", "DestroyDevice", "DestroyInstance"]),
    ] {
        let mut fake = Fake::failing(kind, 0, VkResult::VK_ERROR_INITIALIZATION_FAILED);
        let result = context(&mut fake);
        assert_eq!(
            code(result),
            ErrorCode::VkResult(VkResult::VK_ERROR_INITIALIZATION_FAILED)
        );
        let tail = &fake.log[fake.log.len() - expected_log_tail.len()..];
        assert_eq!(tail, &expected_log_tail[..]);
        assert!(fake.live.is_empty());
    }
}

#[test]
fn select_compute_family_takes_the_first() {
    let families = vec![
        QueueFamily::new(0, family(0x1)),
        QueueFamily::new(1, family(0x3)),
        QueueFamily::new(2, family(0x2)),
    ];
    assert_eq!(select_compute_family(&families).unwrap().index(), 1);
    let none = vec![QueueFamily::new(0, family(0x1)), QueueFamily::new(1, family(0x4))];
    assert!(select_compute_family(&none).is_none());
    assert!(select_compute_family(&Vec::new()).is_none());
}

#[test]
fn physical_devices_are_listed_in_order() {
    let mut fake = Fake::new();
    fake.devices = vec![0x30, 0x40, 0x50];
    let instance = *context(&mut fake).unwrap().instance();
    let devices = drive(
        &mut fake,
        PhysicalDevicesBuilder::new(&instance),
        PhysicalDevicesBuilder::call,
        PhysicalDevicesBuilder::reply,
        nothing,
        PhysicalDevicesBuilder::build,
    )
    .unwrap();
    let handles: Vec<usize> = devices.iter().map(|d| d.handle().address).collect();
    assert_eq!(handles, vec![0x30, 0x40, 0x50]);
    assert!(devices.iter().all(|d| *d.instance() == instance));
    let families = drive(
        &mut fake,
        devices[0].queue_families(),
        filum::instance::QueueFamiliesQuery::call,
        filum::instance::QueueFamiliesQuery::reply,
        nothing,
        filum::instance::QueueFamiliesQuery::finish,
    )
    .unwrap();
    let indices: Vec<usize> = families.iter().map(|f| f.index()).collect();
    assert_eq!(indices, vec![0, 1]);
    assert!(!families[0].is_compute());
    assert!(families[1].is_compute());
}

#[test]
fn device_builder_alone_leaves_a_created_device_to_destroy() {
    let mut fake = Fake::new();
    let instance = drive(
        &mut fake,
        Instance::new(),
        InstanceSetup::call,
        InstanceSetup::reply,
        nothing,
        InstanceSetup::finish,
    )
    .unwrap();
    let device = drive(
        &mut fake,
        DeviceBuilder::new(&instance),
        DeviceBuilder::call,
        DeviceBuilder::reply,
        DeviceBuilder::unwind,
        DeviceBuilder::build,
    )
    .unwrap();
    assert_eq!(device.queue_family_index(), 1);
    let pool = drive(
        &mut fake,
        CommandPool::new(&device),
        CommandPoolSetup::call,
        CommandPoolSetup::reply,
        nothing,
        CommandPoolSetup::finish,
    )
    .unwrap();
    assert_eq!(*pool.device(), device);
}

// ---------------------------------------------------------------------
// Buffers and their memory.

fn properties(types: &[u32]) -> VkPhysicalDeviceMemoryProperties {
    let mut fake = Fake::new();
    fake.memory_types = types.to_vec();
    fake.memory_properties()
}

#[test]
fn memory_type_is_the_lowest_that_fits() {
    let table = properties(&[0x1, 0x2, 0x2 | 0x8, 0x2 | 0x4 | 0x8]);
    assert_eq!(find_memory_type(0xf, &table, 0x2 | 0x8), Some(2));
    assert_eq!(find_memory_type(0xf, &table, 0x2), Some(1));
    assert_eq!(find_memory_type(0xf, &table, 0x1), Some(0));
    assert_eq!(find_memory_type(0b1000, &table, 0x2), Some(3));
    assert_eq!(find_memory_type(0b0011, &table, 0x2 | 0x8), None);
    assert_eq!(find_memory_type(0xf, &table, 0x10), None);
    assert_eq!(find_memory_type(0, &table, 0x1), None);
    assert_eq!(find_memory_type(1 << 31, &properties(&[0; 32]), 0), Some(31));
}

#[test]
fn buffer_memory_is_made_in_order() {
    let mut fake = Fake::new();
    let context = context(&mut fake).unwrap();
    fake.log.clear();
    fake.calls.clear();
    let made = drive(
        &mut fake,
        BufferMemory::new(context.device(), 0x3, 0x2 | 0x8, 100),
        BufferMemorySetup::call,
        BufferMemorySetup::reply,
        BufferMemorySetup::unwind,
        BufferMemorySetup::finish,
    )
    .unwrap();
    assert_eq!(
        fake.log,
        vec![
            "CreateBuffer",
            "GetPhysicalDeviceMemoryProperties",
            "GetBufferMemoryRequirements",
            "AllocateMemory",
            "BindBufferMemory",
        ]
    );
    match &fake.calls[0] {
        Call::CreateBuffer { info, .. } => {
            assert_eq!(info.size, 100);
            assert_eq!(info.usage, 0x3);
            assert_eq!(info.sharingMode, VkSharingMode::VK_SHARING_MODE_EXCLUSIVE);
            assert_eq!(info.sType, VkStructureType::VK_STRUCTURE_TYPE_BUFFER_CREATE_INFO);
        },
        other => panic!("unexpected call {:?}", other),
    }
    match &fake.calls[3] {
        Call::AllocateMemory { info, .. } => {
            assert_eq!(info.allocationSize, 112);
            assert_eq!(info.memoryTypeIndex, 2);
        },
        other => panic!("unexpected call {:?}", other),
    }
    match &fake.calls[4] {
        Call::BindBufferMemory { buffer, memory, memory_offset, .. } => {
            assert_eq!(*buffer, made.buffer());
            assert_eq!(*memory, made.memory());
            assert_eq!(*memory_offset, 0);
        },
        other => panic!("unexpected call {:?}", other),
    }
    assert_eq!(made.whole_size(), 100);
    let mut made = made;
    let names: Vec<String> = made.release().iter().map(name_of).collect();
    assert_eq!(names, vec!["DestroyBuffer", "FreeMemory"]);
    assert_eq!(made.buffer().address, 0);
    assert_eq!(made.memory().address, 0);
    assert!(made.release().is_empty());
}

#[test]
fn no_memory_type_fails_and_gives_the_buffer_back() {
    let mut fake = Fake::new();
    fake.memory_types = vec![0x1];
    let context = context(&mut fake).unwrap();
    let live = fake.live.clone();
    let result = drive(
        &mut fake,
        BufferMemory::new(context.device(), 0x3, 0x2, 64),
        BufferMemorySetup::call,
        BufferMemorySetup::reply,
        BufferMemorySetup::unwind,
        BufferMemorySetup::finish,
    );
    assert_eq!(code(result), ErrorCode::SuitableBufferMemoryTypeNotFound);
    assert_eq!(fake.log.last().unwrap(), "DestroyBuffer");
    assert_eq!(fake.live, live);
}

#[test]
fn failed_bind_gives_memory_then_buffer_back() {
    let mut fake = Fake::failing("BindBufferMemory", 0, VkResult::VK_ERROR_OUT_OF_DEVICE_MEMORY);
    let context = context(&mut fake).unwrap();
    let live = fake.live.clone();
    let result = drive(
        &mut fake,
        BufferMemory::new(context.device(), 0x3, 0x2, 64),
        BufferMemorySetup::call,
        BufferMemorySetup::reply,
        BufferMemorySetup::unwind,
        BufferMemorySetup::finish,
    );
    assert_eq!(code(result), ErrorCode::VkResult(VkResult::VK_ERROR_OUT_OF_DEVICE_MEMORY));
    let tail = &fake.log[fake.log.len() - 2..];
    assert_eq!(tail, ["FreeMemory", "DestroyBuffer"]);
    assert_eq!(fake.live, live);
}

// ---------------------------------------------------------------------
// The staging buffer.

#[test]
fn staging_buffer_is_made_of_two_buffers_a_mapping_and_regions() {
    let mut fake = Fake::new();
    let context = context(&mut fake).unwrap();
    fake.log.clear();
    fake.calls.clear();
    let buffer = buffer(&mut fake, &context, vec![24, 8]).unwrap();
    let buffer_calls = [
        "CreateBuffer",
        "GetPhysicalDeviceMemoryProperties",
        "GetBufferMemoryRequirements",
        "AllocateMemory",
        "BindBufferMemory",
    ];
    let region_calls = [
        "AllocateCommandBuffers",
        "CreateFence",
        "AllocateCommandBuffers",
        "CreateFence",
        "Record",
        "Record",
    ];
    let mut expected: Vec<&str> = Vec::new();
    expected.extend(buffer_calls);
    expected.extend(buffer_calls);
    expected.push("MapMemory");
    expected.extend(region_calls);
    expected.extend(region_calls);
    assert_eq!(fake.log, expected);

    let staging = buffer.staging_buffer();
    assert_eq!(buffer.region_count(), 2);
    assert_eq!(staging.buffer_size(), 32);
    match (&fake.calls[0], &fake.calls[5]) {
        (Call::CreateBuffer { info: host, .. }, Call::CreateBuffer { info: device, .. }) => {
            assert_eq!((host.size, device.size), (32, 32));
            assert_eq!(host.usage, 0x1 | 0x2);
            assert_eq!(device.usage, 0x1 | 0x2 | 0x20);
        },
        other => panic!("unexpected calls {:?}", other),
    }
    match (&fake.calls[3], &fake.calls[8]) {
        (Call::AllocateMemory { info: host, .. }, Call::AllocateMemory { info: device, .. }) => {
            assert_eq!(host.memoryTypeIndex, 2);
            assert_eq!(device.memoryTypeIndex, 0);
        },
        other => panic!("unexpected calls {:?}", other),
    }
    match &fake.calls[10] {
        Call::MapMemory { memory, offset, size, flags, .. } => {
            assert_eq!(*memory, staging.host_buffer_memory().memory());
            assert_eq!((*offset, *size, *flags), (0, 32, 0));
        },
        other => panic!("unexpected call {:?}", other),
    }
    match &fake.calls[12] {
        Call::CreateFence { info, .. } => assert_eq!(info.flags, 0x1),
        other => panic!("unexpected call {:?}", other),
    }
    let regions = staging.regions();
    assert_eq!((regions[0].offset(), regions[0].size()), (0, 24));
    assert_eq!((regions[1].offset(), regions[1].size()), (24, 8));
    assert_eq!(regions[1].copy_region().srcOffset, 24);
    assert_eq!(regions[1].copy_region().dstOffset, 24);
    assert!(staging.nth_region(1).is_some());
    assert!(staging.nth_region(2).is_none());
    assert_eq!(staging.mapped(), regions[0].mapped);
    assert_eq!(*staging.command_pool(), *context.command_pool());
}

#[test]
fn transfers_are_recorded_for_the_range_of_the_region() {
    let mut fake = Fake::new();
    let context = context(&mut fake).unwrap();
    let buffer = buffer(&mut fake, &context, vec![16, 48]).unwrap();
    let staging = buffer.staging_buffer();
    let region = staging.regions()[1];
    let host = staging.host_buffer_memory().buffer();
    let device = staging.device_buffer_memory().buffer();
    let upload = &fake.recordings[&region.host_to_device_command.address];
    assert_eq!(upload, &region.record_upload());
    assert_eq!(
        upload,
        &vec![Command::CopyBuffer { src: host, dst: device, region: region.copy_region() }]
    );
    let download = &fake.recordings[&region.device_to_host_command.address];
    assert_eq!(download, &region.record_download());
    assert_eq!(download.len(), 2);
    assert_eq!(
        download[0],
        Command::CopyBuffer { src: device, dst: host, region: region.copy_region() }
    );
    match &download[1] {
        Command::PipelineBarrier {
            src_stage_mask,
            dst_stage_mask,
            dependency_flags,
            buffer_barrier,
        } => {
            assert_eq!(*src_stage_mask, VkPipelineStageFlagBits::VK_PIPELINE_STAGE_TRANSFER_BIT.bits());
            assert_eq!(*dst_stage_mask, VkPipelineStageFlagBits::VK_PIPELINE_STAGE_HOST_BIT.bits());
            assert_eq!(*dependency_flags, 0);
            assert_eq!(buffer_barrier.srcAccessMask, VkAccessFlagBits::VK_ACCESS_TRANSFER_WRITE_BIT.bits());
            assert_eq!(buffer_barrier.dstAccessMask, VkAccessFlagBits::VK_ACCESS_HOST_READ_BIT.bits());
            assert_eq!(buffer_barrier.buffer, host);
            assert_eq!((buffer_barrier.offset, buffer_barrier.size), (16, 48));
            assert_eq!(buffer_barrier.srcQueueFamilyIndex, u32::MAX);
            assert_eq!(buffer_barrier.dstQueueFamilyIndex, u32::MAX);
        },
        other => panic!("unexpected command {:?}", other),
    }
}

#[test]
fn write_flushes_then_uploads_and_read_downloads_then_invalidates() {
    let mut fake = Fake::new();
    let context = context(&mut fake).unwrap();
    let buffer = buffer(&mut fake, &context, vec![8, 8]).unwrap();
    fake.log.clear();
    fake.calls.clear();
    write(&mut fake, &buffer, 1, &[1, 2, 3, 4, 5, 6, 7, 8]).unwrap();
    assert_eq!(
        fake.log,
        vec!["WriteMapped", "FlushMappedMemoryRanges", "ResetFences", "QueueSubmit", "WaitForFences"]
    );
    let region = buffer.staging_buffer().regions()[1];
    match &fake.calls[1] {
        Call::FlushMappedMemoryRanges { range, .. } => {
            assert_eq!(range.memory, region.host_buffer_memory.memory());
            assert_eq!((range.offset, range.size), (8, 8));
        },
        other => panic!("unexpected call {:?}", other),
    }
    match &fake.calls[3] {
        Call::QueueSubmit { queue, submit, fence } => {
            assert_eq!(*queue, context.device().queue().handle());
            assert_eq!(submit.commandBuffer, region.host_to_device_command);
            assert_eq!(submit.commandBufferCount, 1);
            assert_eq!(submit.waitDstStageMask, Some(0x1000));
            assert_eq!(*fence, region.host_to_device_fence);
        },
        other => panic!("unexpected call {:?}", other),
    }
    match &fake.calls[4] {
        Call::WaitForFences { fence, wait_all, timeout, .. } => {
            assert_eq!(*fence, region.host_to_device_fence);
            assert_eq!((*wait_all, *timeout), (1, u64::MAX));
        },
        other => panic!("unexpected call {:?}", other),
    }
    fake.log.clear();
    assert_eq!(read(&mut fake, &buffer, 1).unwrap(), vec![1, 2, 3, 4, 5, 6, 7, 8]);
    assert_eq!(
        fake.log,
        vec!["ResetFences", "QueueSubmit", "WaitForFences", "InvalidateMappedMemoryRanges", "ReadMapped"]
    );
}

#[test]
fn what_is_written_is_read_back() {
    for sizes in [vec![4], vec![1, 2, 3], vec![16, 0, 16], vec![7, 9, 11, 13, 64]] {
        let mut fake = Fake::new();
        let context = context(&mut fake).unwrap();
        let buffer = buffer(&mut fake, &context, sizes.clone()).unwrap();
        let identity = pipeline(&mut fake, &buffer, IDENTITY, None).unwrap();
        for (region, size) in sizes.iter().enumerate() {
            let value: Vec<u8> = (0..*size).map(|k| (region * 31 + k * 7 + 1) as u8).collect();
            write(&mut fake, &buffer, region, &value).unwrap();
            dispatch_once(&mut fake, &identity, 1).unwrap();
            assert_eq!(read(&mut fake, &buffer, region).unwrap(), value);
        }
    }
}

#[test]
fn a_write_to_one_region_leaves_the_others() {
    let sizes = vec![8usize, 4, 12];
    let mut fake = Fake::new();
    let context = context(&mut fake).unwrap();
    let buffer = buffer(&mut fake, &context, sizes.clone()).unwrap();
    let before: Vec<Vec<u8>> =
        sizes.iter().enumerate().map(|(i, size)| vec![i as u8 + 1; *size]).collect();
    for (region, value) in before.iter().enumerate() {
        write(&mut fake, &buffer, region, value).unwrap();
    }
    let staging = buffer.staging_buffer();
    let host = staging.host_buffer_memory().buffer().address;
    let device = staging.device_buffer_memory().buffer().address;
    write(&mut fake, &buffer, 1, &[9, 9, 9, 9]).unwrap();
    assert_eq!(fake.buffers[&host][..8], before[0][..]);
    assert_eq!(fake.buffers[&host][8..12], [9, 9, 9, 9]);
    assert_eq!(fake.buffers[&host][12..], before[2][..]);
    assert_eq!(fake.buffers[&device][..8], before[0][..]);
    assert_eq!(fake.buffers[&device][8..12], [9, 9, 9, 9]);
    assert_eq!(fake.buffers[&device][12..], before[2][..]);
    assert_eq!(read(&mut fake, &buffer, 0).unwrap(), before[0]);
    assert_eq!(read(&mut fake, &buffer, 2).unwrap(), before[2]);
    assert_eq!(read(&mut fake, &buffer, 1).unwrap(), vec![9, 9, 9, 9]);
}

#[test]
fn failed_transfers_are_reported_and_go_no_further() {
    for (kind, nth) in [("ResetFences", 0), ("QueueSubmit", 0), ("WaitForFences", 0)] {
        let mut fake = Fake::new();
        let context = context(&mut fake).unwrap();
        let buffer = buffer(&mut fake, &context, vec![4]).unwrap();
        fake.fail = Some((kind.to_string(), nth, VkResult::VK_ERROR_DEVICE_LOST));
        fake.seen.clear();
        fake.log.clear();
        fake.read = vec![42];
        let result = access(&mut fake, buffer.staging_buffer().read_region(0));
        assert_eq!(code(result), ErrorCode::TransferFailed(VkResult::VK_ERROR_DEVICE_LOST));
        assert_eq!(fake.log.last().unwrap(), kind);
        assert!(!fake.log.contains(&"ReadMapped".to_string()));
        assert_eq!(fake.read, vec![42]);
    }
    let mut fake = Fake::new();
    let context = context(&mut fake).unwrap();
    let buffer = buffer(&mut fake, &context, vec![4]).unwrap();
    fake.fail = Some(("FlushMappedMemoryRanges".to_string(), 0, VkResult::VK_ERROR_MEMORY_MAP_FAILED));
    fake.log.clear();
    let result = write(&mut fake, &buffer, 0, &[1, 2, 3, 4]);
    assert_eq!(code(result), ErrorCode::TransferFailed(VkResult::VK_ERROR_MEMORY_MAP_FAILED));
    assert_eq!(fake.log, vec!["WriteMapped", "FlushMappedMemoryRanges"]);
}

#[test]
fn sliced_access_covers_whole_items_only() {
    let mut fake = Fake::new();
    let context = context(&mut fake).unwrap();
    let buffer = buffer(&mut fake, &context, vec![10, 6]).unwrap();
    let staging = buffer.staging_buffer();
    assert_eq!(staging.regions()[0].slice_len(4), 2);
    assert_eq!(staging.regions()[1].slice_len(4), 1);
    assert_eq!(staging.regions()[1].slice_len(1), 6);
    assert_eq!(staging.regions()[1].slice_len(7), 0);
    assert_eq!(staging.write_region_with_slice(0, 4).span, 8);
    assert_eq!(staging.read_region_with_slice(1, 4).span, 4);
    assert_eq!(staging.write_region(0).span, 10);
    assert_eq!(staging.read_region(1).span, 6);
    match staging.write_region_with_slice(1, 4).call() {
        Some(Call::WriteMapped { mapped, offset, size }) => {
            assert_eq!(mapped, staging.mapped());
            assert_eq!((offset, size), (10, 4));
        },
        other => panic!("unexpected call {:?}", other),
    }
}

#[test]
fn total_size_is_the_sum_or_nothing() {
    assert_eq!(StagingBuffer::total_size(&[]), Some(0));
    assert_eq!(StagingBuffer::total_size(&[1, 2, 3]), Some(6));
    assert_eq!(StagingBuffer::total_size(&[usize::MAX]), Some(usize::MAX as u64));
    if usize::BITS == 64 {
        assert_eq!(StagingBuffer::total_size(&[usize::MAX, 1]), None);
        assert_eq!(StagingBuffer::total_size(&[usize::MAX, 0]), Some(u64::MAX));
    }
}

#[test]
fn failed_region_gives_everything_back_in_reverse() {
    let mut fake = Fake::failing("CreateFence", 3, VkResult::VK_ERROR_OUT_OF_HOST_MEMORY);
    let context = context(&mut fake).unwrap();
    let live = fake.live.clone();
    fake.log.clear();
    let result = buffer(&mut fake, &context, vec![4, 4]);
    assert_eq!(code(result), ErrorCode::VkResult(VkResult::VK_ERROR_OUT_OF_HOST_MEMORY));
    let at = fake.log.iter().rposition(|name| name == "CreateFence").unwrap();
    assert_eq!(
        fake.log[at + 1..],
        [
            // the second region, as far as it had come
            "FreeCommandBuffers",
            "DestroyFence",
            "FreeCommandBuffers",
            // the first region
            "DestroyFence",
            "FreeCommandBuffers",
            "DestroyFence",
            "FreeCommandBuffers",
            "UnmapMemory",
            // the device-local buffer, then the host-visible buffer
            "FreeMemory",
            "DestroyBuffer",
            "FreeMemory",
            "DestroyBuffer",
        ]
    );
    assert_eq!(fake.live, live);
    assert!(fake.mappings.is_empty());
}

#[test]
fn failed_mapping_gives_both_buffers_back() {
    let mut fake = Fake::failing("MapMemory", 0, VkResult::VK_ERROR_MEMORY_MAP_FAILED);
    let context = context(&mut fake).unwrap();
    let live = fake.live.clone();
    let result = buffer(&mut fake, &context, vec![4]);
    assert_eq!(code(result), ErrorCode::VkResult(VkResult::VK_ERROR_MEMORY_MAP_FAILED));
    let tail = &fake.log[fake.log.len() - 5..];
    assert_eq!(tail, ["MapMemory", "FreeMemory", "DestroyBuffer", "FreeMemory", "DestroyBuffer"]);
    assert_eq!(fake.live, live);
}

#[test]
fn buffer_keeps_its_context() {
    let mut fake = Fake::new();
    let context = context(&mut fake).unwrap();
    let buffer = buffer(&mut fake, &context, vec![4]).unwrap();
    assert!(Arc::ptr_eq(buffer.context(), &context));
    assert_eq!(Arc::strong_count(&context), 2);
}

// ---------------------------------------------------------------------
// The compute pipeline.

#[test]
fn pipeline_is_made_in_order() {
    let mut fake = Fake::new();
    let context = context(&mut fake).unwrap();
    let buffer = buffer(&mut fake, &context, vec![4, 8, 16]).unwrap();
    fake.log.clear();
    fake.calls.clear();
    let made = pipeline(&mut fake, &buffer, IDENTITY, None).unwrap();
    assert_eq!(
        fake.log,
        vec![
            "CreateShaderModule",
            "CreateDescriptorPool",
            "CreateDescriptorSetLayout",
            "CreatePipelineLayout",
            "AllocateDescriptorSets",
            "UpdateDescriptorSets",
            "CreatePipelineCache",
            "CreateComputePipelines",
        ]
    );
    let compute = &made.compute_pipeline;
    match &fake.calls[1] {
        Call::CreateDescriptorPool { info, .. } => {
            assert_eq!(info.maxSets, 1);
            assert_eq!(info.poolSizeCount, 1);
            assert_eq!(info.poolSize.descriptorCount, 3);
            assert_eq!(
                info.poolSize.descriptorType,
                VkDescriptorType::VK_DESCRIPTOR_TYPE_STORAGE_BUFFER
            );
        },
        other => panic!("unexpected call {:?}", other),
    }
    match &fake.calls[2] {
        Call::CreateDescriptorSetLayout { info, .. } => {
            assert_eq!(info.bindings.len(), 3);
            for (i, binding) in info.bindings.iter().enumerate() {
                assert_eq!(binding.binding, i as u32);
                assert_eq!(binding.descriptorCount, 1);
                assert_eq!(
                    binding.descriptorType,
                    VkDescriptorType::VK_DESCRIPTOR_TYPE_STORAGE_BUFFER
                );
                assert_eq!(
                    binding.stageFlags,
                    VkShaderStageFlagBits::VK_SHADER_STAGE_COMPUTE_BIT.bits()
                );
            }
        },
        other => panic!("unexpected call {:?}", other),
    }
    match &fake.calls[3] {
        Call::CreatePipelineLayout { info, .. } => {
            assert_eq!(info.setLayoutCount, 1);
            assert_eq!(info.setLayout, compute.descriptor_set_layout);
            assert_eq!(info.pushConstantRange, None);
        },
        other => panic!("unexpected call {:?}", other),
    }
    match &fake.calls[4] {
        Call::AllocateDescriptorSets { info, .. } => {
            assert_eq!(info.descriptorPool, compute.descriptor_pool);
            assert_eq!(info.descriptorSetCount, 1);
            assert_eq!(info.setLayout, compute.descriptor_set_layout);
        },
        other => panic!("unexpected call {:?}", other),
    }
    match &fake.calls[7] {
        Call::CreateComputePipelines { cache, info, .. } => {
            assert_eq!(*cache, compute.cache);
            assert_eq!(info.layout, compute.layout);
            assert_eq!(info.stage.stage, VkShaderStageFlagBits::VK_SHADER_STAGE_COMPUTE_BIT);
            assert_eq!(info.stage.module, made.shader_module.handle());
            assert_eq!(info.stage.name, b"main\0".to_vec());
            assert!(info.stage.specializationInfo.data.is_empty());
            assert!(info.stage.specializationInfo.mapEntries.is_empty());
            assert_eq!(info.basePipelineHandle.address, 0);
        },
        other => panic!("unexpected call {:?}", other),
    }
    assert!(Arc::ptr_eq(compute.staging_buffer(), buffer.staging_buffer()));
}

#[test]
fn descriptors_cover_the_regions() {
    for sizes in [vec![4usize], vec![4, 8, 16], vec![0, 3, 0, 5], vec![24, 24]] {
        let mut fake = Fake::new();
        let context = context(&mut fake).unwrap();
        let buffer = buffer(&mut fake, &context, sizes.clone()).unwrap();
        fake.calls.clear();
        let made = pipeline(&mut fake, &buffer, IDENTITY, None).unwrap();
        let device = buffer.staging_buffer().device_buffer_memory().buffer();
        let writes = fake
            .calls
            .iter()
            .find_map(|call| match call {
                Call::UpdateDescriptorSets { writes, .. } => Some(writes.clone()),
                _ => None,
            })
            .unwrap();
        assert_eq!(writes.len(), sizes.len());
        let mut before = 0u64;
        for (i, write) in writes.iter().enumerate() {
            assert_eq!(write.dstSet, made.compute_pipeline.descriptor_set);
            assert_eq!(write.dstBinding, i as u32);
            assert_eq!(write.dstArrayElement, 0);
            assert_eq!(write.descriptorCount, 1);
            assert_eq!(write.descriptorType, VkDescriptorType::VK_DESCRIPTOR_TYPE_STORAGE_BUFFER);
            assert_eq!(write.bufferInfo.buffer, device);
            assert_eq!(write.bufferInfo.offset, before);
            assert_eq!(write.bufferInfo.range, sizes[i] as u64);
            before += sizes[i] as u64;
        }
    }
}

#[test]
fn push_constant_range_is_declared_when_chosen() {
    let mut fake = Fake::new();
    let context = context(&mut fake).unwrap();
    let buffer = buffer(&mut fake, &context, vec![4]).unwrap();
    fake.calls.clear();
    let setup = PipelineBuilder::new(&buffer)
        .push_constant_size(16)
        .shader_bytes(shader_code(IDENTITY))
        .build();
    made_pipeline(&mut fake, setup).unwrap();
    match &fake.calls[3] {
        Call::CreatePipelineLayout { info, .. } => {
            let range = info.pushConstantRange.unwrap();
            assert_eq!((range.stageFlags, range.offset, range.size), (0x20, 0, 16));
        },
        other => panic!("unexpected call {:?}", other),
    }
}

#[test]
fn failed_pipeline_gives_everything_back_in_reverse() {
    let mut fake = Fake::failing("CreateComputePipelines", 0, VkResult::VK_ERROR_INVALID_SHADER_NV);
    let context = context(&mut fake).unwrap();
    let buffer = buffer(&mut fake, &context, vec![4]).unwrap();
    let live = fake.live.clone();
    let result = pipeline(&mut fake, &buffer, IDENTITY, None);
    assert_eq!(code(result), ErrorCode::VkResult(VkResult::VK_ERROR_INVALID_SHADER_NV));
    let at = fake.log.iter().rposition(|name| name == "CreateComputePipelines").unwrap();
    assert_eq!(
        fake.log[at + 1..],
        [
            "DestroyPipelineCache",
            "DestroyPipelineLayout",
            "DestroyDescriptorSetLayout",
            "DestroyDescriptorPool",
            "DestroyShaderModule",
        ]
    );
    assert_eq!(fake.live, live);

    let mut fake = Fake::failing("CreateDescriptorSetLayout", 0, VkResult::VK_ERROR_OUT_OF_HOST_MEMORY);
    let context = self::context(&mut fake).unwrap();
    let buffer = self::buffer(&mut fake, &context, vec![4]).unwrap();
    let live = fake.live.clone();
    let result = pipeline(&mut fake, &buffer, IDENTITY, None);
    assert_eq!(code(result), ErrorCode::VkResult(VkResult::VK_ERROR_OUT_OF_HOST_MEMORY));
    let tail = &fake.log[fake.log.len() - 2..];
    assert_eq!(tail, ["DestroyDescriptorPool", "DestroyShaderModule"]);
    assert_eq!(fake.live, live);
}

// ---------------------------------------------------------------------
// Shaders.

#[test]
fn shader_code_must_be_whole_words() {
    assert_eq!(code(ShaderModuleSource::load(Vec::new())), ErrorCode::ShaderLoadUnaligned);
    assert_eq!(code(ShaderModuleSource::load(vec![1, 2, 3])), ErrorCode::ShaderLoadUnaligned);
    assert_eq!(code(ShaderModuleSource::load(vec![0; 5])), ErrorCode::ShaderLoadUnaligned);
    assert_eq!(ShaderModuleSource::load(vec![7; 4]).unwrap(), (vec![7; 4], 4));
    assert_eq!(ShaderModuleSource::load(vec![7; 12]).unwrap(), (vec![7; 12], 12));
}

fn module(fake: &mut Fake, context: &Context, source: ShaderModuleSource) -> Result<ShaderModule, Error> {
    drive(
        fake,
        ShaderModule::new(context.device(), source),
        ShaderModuleSetup::call,
        ShaderModuleSetup::reply,
        nothing,
        ShaderModuleSetup::finish,
    )
}

#[test]
fn shader_is_loaded_from_bytes_or_from_a_file() {
    let mut fake = Fake::new();
    fake.files.insert("data/identity.comp.spv".to_string(), shader_code(IDENTITY));
    fake.files.insert("data/odd.spv".to_string(), vec![1, 2, 3, 4, 5]);
    fake.files.insert("data/empty.spv".to_string(), Vec::new());
    let context = context(&mut fake).unwrap();

    fake.log.clear();
    let made = module(&mut fake, &context, ShaderModuleSource::from_bytes(shader_code(SUM))).unwrap();
    assert_eq!(fake.log, vec!["CreateShaderModule"]);
    assert_eq!(fake.modules[&made.handle().address], shader_code(SUM));

    fake.log.clear();
    let source = ShaderModuleSource::from_file("data/identity.comp.spv".to_string());
    let made = module(&mut fake, &context, source).unwrap();
    assert_eq!(fake.log, vec!["ReadFile", "CreateShaderModule"]);
    assert_eq!(fake.modules[&made.handle().address], shader_code(IDENTITY));

    fake.log.clear();
    let source = ShaderModuleSource::from_file("data/missing.spv".to_string());
    let result = module(&mut fake, &context, source);
    assert_eq!(code(result), ErrorCode::ShaderLoadIO("no file data/missing.spv".to_string()));
    assert_eq!(fake.log, vec!["ReadFile"]);

    for path in ["data/odd.spv", "data/empty.spv"] {
        fake.log.clear();
        let result = module(&mut fake, &context, ShaderModuleSource::from_file(path.to_string()));
        assert_eq!(code(result), ErrorCode::ShaderLoadUnaligned);
        assert_eq!(fake.log, vec!["ReadFile"]);
    }

    fake.log.clear();
    let result = module(&mut fake, &context, ShaderModuleSource::from_bytes(vec![1, 2]));
    assert_eq!(code(result), ErrorCode::ShaderLoadUnaligned);
    assert!(fake.log.is_empty());
}

#[test]
fn pipeline_from_a_file_reads_it_first() {
    let mut fake = Fake::new();
    fake.files.insert("data/fibonacci.comp.spv".to_string(), shader_code(FIBONACCI));
    let context = context(&mut fake).unwrap();
    let buffer = buffer(&mut fake, &context, vec![16]).unwrap();
    fake.log.clear();
    let setup = PipelineBuilder::new(&buffer).shader("data/fibonacci.comp.spv".to_string()).build();
    let made = made_pipeline(&mut fake, setup).unwrap();
    assert_eq!(fake.log[..2], ["ReadFile", "CreateShaderModule"]);
    dispatch_once(&mut fake, &made, 4).unwrap();
    assert_eq!(words(&read(&mut fake, &buffer, 0).unwrap()), vec![0, 1, 1, 2]);
}

// ---------------------------------------------------------------------
// Constants.

#[test]
fn constants_are_packed_without_padding() {
    let entries = vec![
        entry(7u8.to_ne_bytes()),
        entry(0x1234u16.to_ne_bytes()),
        entry(0xdead_beefu32.to_ne_bytes()),
        entry(0x0102_0304_0506_0708u64.to_ne_bytes()),
        entry(1.5f32.to_ne_bytes()),
        entry((-2.25f64).to_ne_bytes()),
    ];
    let data = pack(&entries);
    assert_eq!(data.len(), 1 + 2 + 4 + 8 + 4 + 8);
    let map = specialization_map(&entries);
    let offsets: Vec<u32> = map.iter().map(|e| e.offset).collect();
    let sizes: Vec<usize> = map.iter().map(|e| e.size).collect();
    let ids: Vec<u32> = map.iter().map(|e| e.constantID).collect();
    assert_eq!(offsets, vec![0, 1, 3, 7, 15, 19]);
    assert_eq!(sizes, vec![1, 2, 4, 8, 4, 8]);
    assert_eq!(ids, vec![0, 1, 2, 3, 4, 5]);
    for (e, constant) in map.iter().zip(entries.iter()) {
        let at = e.offset as usize;
        assert_eq!(&data[at..at + e.size], &constant.bytes()[..]);
    }
    assert_eq!(f32::from_ne_bytes(data[15..19].try_into().unwrap()), 1.5);
    assert_eq!(f64::from_ne_bytes(data[19..27].try_into().unwrap()), -2.25);
    assert!(pack(&Vec::new()).is_empty());
    assert!(specialization_map(&Vec::new()).is_empty());
    assert!(constants_fit(&entries));
}

#[test]
fn constant_entry_keeps_its_bytes() {
    let constant = ConstantEntry::new(vec![1, 2, 3, 4]);
    assert_eq!(constant.size(), 4);
    assert_eq!(constant.bytes(), &vec![1u8, 2, 3, 4]);
    assert_eq!(constant.clone(), constant);
    assert_eq!(ConstantEntry::new(Vec::new()).size(), 0);
}

#[test]
fn specialization_constants_reach_the_shader() {
    let constants = vec![
        entry(0xabu8.to_ne_bytes()),
        entry(0xbeefu16.to_ne_bytes()),
        entry(0x0bad_f00du32.to_ne_bytes()),
        entry(0x1122_3344_5566_7788u64.to_ne_bytes()),
        entry(3.25f32.to_ne_bytes()),
        entry(6.5e300f64.to_ne_bytes()),
    ];
    let expected = pack(&constants);
    let mut fake = Fake::new();
    let context = context(&mut fake).unwrap();
    let buffer = buffer(&mut fake, &context, vec![expected.len()]).unwrap();
    let echo = pipeline(&mut fake, &buffer, ECHO_SPECIALIZATION, Some(constants)).unwrap();
    dispatch_once(&mut fake, &echo, 1).unwrap();
    let out = read(&mut fake, &buffer, 0).unwrap();
    assert_eq!(out, expected);
    assert_eq!(out[0], 0xab);
    assert_eq!(u16::from_ne_bytes(out[1..3].try_into().unwrap()), 0xbeef);
    assert_eq!(u32::from_ne_bytes(out[3..7].try_into().unwrap()), 0x0bad_f00d);
    assert_eq!(u64::from_ne_bytes(out[7..15].try_into().unwrap()), 0x1122_3344_5566_7788);
    assert_eq!(f32::from_ne_bytes(out[15..19].try_into().unwrap()), 3.25);
    assert_eq!(f64::from_ne_bytes(out[19..27].try_into().unwrap()), 6.5e300);
}

fn dispatch_with(
    fake: &mut Fake,
    pipeline: &Arc<Pipeline>,
    grid: (usize, usize, usize),
    constants: Option<Vec<ConstantEntry>>,
) -> Result<CommandDispatch, Error> {
    let builder = DispatchBuilder::new(pipeline).workgroup_count(grid.0, grid.1, grid.2);
    let setup = match constants {
        Some(constants) => {
            let room = pipeline.compute_pipeline.push_constant_size;
            assert!(push_constants_fit(&constants, room));
            builder.push_constants(constants).build()
        },
        None => builder.build(),
    };
    let dispatch = command_dispatch(fake, setup)?;
    submit(fake, dispatch.dispatch())?;
    Ok(dispatch)
}

#[test]
fn push_constants_reach_the_shader_on_every_dispatch() {
    let mut fake = Fake::new();
    let context = context(&mut fake).unwrap();
    let buffer = buffer(&mut fake, &context, vec![16]).unwrap();
    let echo = pipeline_with_room(&mut fake, &buffer, ECHO_PUSH, None, 12).unwrap();
    assert_eq!(echo.compute_pipeline.push_constant_size, 12);
    for value in [0u64, 1, 0xffff_ffff_ffff_ffff, 0x0123_4567_89ab_cdef] {
        let constants = vec![entry(value.to_ne_bytes()), entry((value as u32 ^ 5).to_ne_bytes())];
        let expected = pack(&constants);
        dispatch_with(&mut fake, &echo, (1, 1, 1), Some(constants)).unwrap();
        let out = read(&mut fake, &buffer, 0).unwrap();
        assert_eq!(out[..12], expected[..]);
        assert_eq!(u64::from_ne_bytes(out[..8].try_into().unwrap()), value);
    }
}

// ---------------------------------------------------------------------
// Dispatch.

#[test]
fn dispatch_is_recorded_in_order() {
    let mut fake = Fake::new();
    let context = context(&mut fake).unwrap();
    let buffer = buffer(&mut fake, &context, vec![16]).unwrap();
    let made = pipeline_with_room(&mut fake, &buffer, ECHO_PUSH, None, 6).unwrap();
    let compute = &made.compute_pipeline;
    assert_eq!(fake.ranges[&compute.layout.address], Some((0x20, 0, 6)));
    let device = buffer.staging_buffer().device_buffer_memory().buffer();
    fake.log.clear();
    let constants = vec![entry(7u32.to_ne_bytes()), entry(9u16.to_ne_bytes())];
    let dispatch = dispatch_with(&mut fake, &made, (3, 4, 5), Some(constants)).unwrap();
    assert_eq!(
        fake.log,
        vec![
            "AllocateCommandBuffers",
            "CreateFence",
            "Record",
            "ResetFences",
            "QueueSubmit",
            "WaitForFences",
        ]
    );
    let commands = &fake.recordings[&dispatch.command_buffer.address];
    assert_eq!(commands.len(), 6);
    match &commands[0] {
        Command::PipelineBarrier { src_stage_mask, dst_stage_mask, buffer_barrier, .. } => {
            assert_eq!(*src_stage_mask, VkPipelineStageFlagBits::VK_PIPELINE_STAGE_HOST_BIT.bits());
            assert_eq!(
                *dst_stage_mask,
                VkPipelineStageFlagBits::VK_PIPELINE_STAGE_COMPUTE_SHADER_BIT.bits()
            );
            assert_eq!(buffer_barrier.srcAccessMask, VkAccessFlagBits::VK_ACCESS_HOST_WRITE_BIT.bits());
            assert_eq!(buffer_barrier.dstAccessMask, VkAccessFlagBits::VK_ACCESS_SHADER_READ_BIT.bits());
            assert_eq!(buffer_barrier.buffer, device);
            assert_eq!((buffer_barrier.offset, buffer_barrier.size), (0, VK_WHOLE_SIZE));
        },
        other => panic!("unexpected command {:?}", other),
    }
    let mut packed = 7u32.to_ne_bytes().to_vec();
    packed.extend(9u16.to_ne_bytes());
    assert_eq!(
        commands[1],
        Command::PushConstants { layout: compute.layout, stage_flags: 0x20, offset: 0, data: packed }
    );
    assert_eq!(
        commands[2],
        Command::BindPipeline {
            bind_point: VkPipelineBindPoint::VK_PIPELINE_BIND_POINT_COMPUTE,
            pipeline: compute.handle,
        }
    );
    assert_eq!(
        commands[3],
        Command::BindDescriptorSets {
            bind_point: VkPipelineBindPoint::VK_PIPELINE_BIND_POINT_COMPUTE,
            layout: compute.layout,
            first_set: 0,
            descriptor_set: compute.descriptor_set,
        }
    );
    assert_eq!(commands[4], Command::Dispatch { x: 3, y: 4, z: 5 });
    match &commands[5] {
        Command::PipelineBarrier { src_stage_mask, dst_stage_mask, buffer_barrier, .. } => {
            assert_eq!(*src_stage_mask, 0x800);
            assert_eq!(*dst_stage_mask, 0x1000 | 0x800);
            assert_eq!(buffer_barrier.srcAccessMask, 0x40);
            assert_eq!(buffer_barrier.dstAccessMask, 0x800 | 0x20);
            assert_eq!(buffer_barrier.buffer, device);
            assert_eq!((buffer_barrier.offset, buffer_barrier.size), (0, VK_WHOLE_SIZE));
        },
        other => panic!("unexpected command {:?}", other),
    }
}

#[test]
fn dispatch_without_constants_records_no_push() {
    let mut fake = Fake::new();
    let context = context(&mut fake).unwrap();
    let buffer = buffer(&mut fake, &context, vec![16]).unwrap();
    let made = pipeline(&mut fake, &buffer, IDENTITY, None).unwrap();
    let dispatch = dispatch_with(&mut fake, &made, (2, 1, 1), None).unwrap();
    let commands = &fake.recordings[&dispatch.command_buffer.address];
    assert_eq!(commands.len(), 5);
    assert!(commands.iter().all(|c| !matches!(c, Command::PushConstants { .. })));
    assert_eq!(commands[3], Command::Dispatch { x: 2, y: 1, z: 1 });
    let dispatch = dispatch_with(&mut fake, &made, (2, 1, 1), Some(Vec::new())).unwrap();
    assert_eq!(fake.recordings[&dispatch.command_buffer.address].len(), 5);
}

#[test]
fn a_second_dispatch_changes_nothing() {
    let mut fake = Fake::new();
    let context = context(&mut fake).unwrap();
    let buffer = buffer(&mut fake, &context, vec![32]).unwrap();
    let fibonacci = pipeline(&mut fake, &buffer, FIBONACCI, None).unwrap();
    write(&mut fake, &buffer, 0, &bytes_of(&[9, 9, 9, 9, 9, 9, 9, 9])).unwrap();
    let dispatch = dispatch_with(&mut fake, &fibonacci, (8, 1, 1), None).unwrap();
    let first = read(&mut fake, &buffer, 0).unwrap();
    let calls_before = fake.calls.len();
    submit(&mut fake, dispatch.dispatch()).unwrap();
    let second_run = fake.calls[calls_before..].to_vec();
    let second = read(&mut fake, &buffer, 0).unwrap();
    assert_eq!(first, second);
    assert_eq!(words(&second), vec![0, 1, 1, 2, 3, 5, 8, 13]);
    let calls_before = fake.calls.len();
    submit(&mut fake, dispatch.dispatch()).unwrap();
    assert_eq!(fake.calls[calls_before..], second_run[..]);
    assert_eq!(second_run.len(), 3);
}

#[test]
fn failed_dispatch_is_reported() {
    for kind in ["ResetFences", "QueueSubmit", "WaitForFences"] {
        let mut fake = Fake::new();
        let context = context(&mut fake).unwrap();
        let buffer = buffer(&mut fake, &context, vec![4]).unwrap();
        let made = pipeline(&mut fake, &buffer, IDENTITY, None).unwrap();
        let live = fake.live.clone();
        fake.seen.clear();
        fake.fail = Some((kind.to_string(), 0, VkResult::VK_ERROR_DEVICE_LOST));
        let result = dispatch_once(&mut fake, &made, 1);
        assert_eq!(code(result), ErrorCode::DispatchFailed(VkResult::VK_ERROR_DEVICE_LOST));
        let tail = &fake.log[fake.log.len() - 2..];
        assert_eq!(tail, ["DestroyFence", "FreeCommandBuffers"]);
        assert_eq!(fake.live, live);
    }
}

#[test]
fn failed_making_of_a_dispatch_is_unwound() {
    let mut fake = Fake::new();
    let context = context(&mut fake).unwrap();
    let buffer = buffer(&mut fake, &context, vec![4]).unwrap();
    let made = pipeline(&mut fake, &buffer, IDENTITY, None).unwrap();
    let live = fake.live.clone();
    fake.seen.clear();
    fake.fail = Some(("Record".to_string(), 0, VkResult::VK_ERROR_OUT_OF_HOST_MEMORY));
    let result = dispatch_once(&mut fake, &made, 1);
    assert_eq!(code(result), ErrorCode::VkResult(VkResult::VK_ERROR_OUT_OF_HOST_MEMORY));
    let tail = &fake.log[fake.log.len() - 3..];
    assert_eq!(tail, ["Record", "DestroyFence", "FreeCommandBuffers"]);
    assert_eq!(fake.live, live);
}

#[test]
fn one_time_dispatch_gives_itself_back() {
    let mut fake = Fake::new();
    let context = context(&mut fake).unwrap();
    let buffer = buffer(&mut fake, &context, vec![4]).unwrap();
    let made = pipeline(&mut fake, &buffer, IDENTITY, None).unwrap();
    let live = fake.live.clone();
    fake.log.clear();
    dispatch_once(&mut fake, &made, 5).unwrap();
    assert_eq!(
        fake.log,
        vec![
            "AllocateCommandBuffers",
            "CreateFence",
            "Record",
            "ResetFences",
            "QueueSubmit",
            "WaitForFences",
            "DestroyFence",
            "FreeCommandBuffers",
        ]
    );
    assert_eq!(fake.live, live);
}

// ---------------------------------------------------------------------
// Release.

#[test]
fn everything_is_given_back_in_the_order_of_dependence() {
    let mut fake = Fake::new();
    let context = context(&mut fake).unwrap();
    let buffer = buffer(&mut fake, &context, vec![4, 4]).unwrap();
    let made = pipeline(&mut fake, &buffer, IDENTITY, None).unwrap();
    let mut dispatch = dispatch_with(&mut fake, &made, (1, 1, 1), None).unwrap();
    fake.log.clear();

    let mut pipeline = Arc::try_unwrap(made).unwrap();
    let mut context_copy = *context;
    // The staging buffer is shared; the calls that release it are the same
    // for every owner, so a staging buffer of the same making stands in.
    let mut staging = {
        let mut other = Fake::new();
        other.next = 0x1000;
        let other_context = self::context(&mut other).unwrap();
        let setup = StagingBuffer::new(other_context.command_pool(), &[4, 4]);
        drive(
            &mut other,
            setup,
            StagingBufferSetup::call,
            StagingBufferSetup::reply,
            StagingBufferSetup::unwind,
            StagingBufferSetup::finish,
        )
        .unwrap()
    };
    assert_eq!(staging.regions(), buffer.staging_buffer().regions());

    let calls = teardown(&mut dispatch, &mut pipeline, &mut staging, &mut context_copy);
    let names: Vec<String> = calls.iter().map(name_of).collect();
    assert_eq!(
        names,
        vec![
            // the dispatch
            "DestroyFence",
            "FreeCommandBuffers",
            // the pipeline
            "DestroyPipelineLayout",
            "DestroyDescriptorSetLayout",
            "DestroyDescriptorPool",
            "DestroyPipeline",
            "DestroyPipelineCache",
            // the shader module
            "DestroyShaderModule",
            // the staging buffer
            "UnmapMemory",
            "DestroyFence",
            "DestroyFence",
            "FreeCommandBuffers",
            "FreeCommandBuffers",
            "DestroyFence",
            "DestroyFence",
            "FreeCommandBuffers",
            "FreeCommandBuffers",
            "DestroyBuffer",
            "FreeMemory",
            "DestroyBuffer",
            "FreeMemory",
            // the command pool, the device, the instance
            "DestroyCommandPool",
            "DestroyDevice",
            "DestroyInstance",
        ]
    );
    for call in calls {
        fake.perform(call);
    }
    assert!(fake.live.is_empty());
    assert!(fake.mappings.is_empty());

    assert_eq!(dispatch.fence.address, 0);
    assert_eq!(dispatch.command_buffer.address, 0);
    assert_eq!(pipeline.shader_module.handle().address, 0);
    assert_eq!(pipeline.compute_pipeline.handle.address, 0);
    assert_eq!(pipeline.compute_pipeline.layout.address, 0);
    assert_eq!(pipeline.compute_pipeline.descriptor_set.address, 0);
    assert_eq!(staging.host_buffer_memory().buffer().address, 0);
    assert_eq!(staging.device_buffer_memory().memory().address, 0);
    assert_eq!(context_copy.command_pool().handle().address, 0);
    assert_eq!(context_copy.device().handle().address, 0);
    assert_eq!(context_copy.instance().handle().address, 0);
    let again = teardown(&mut dispatch, &mut pipeline, &mut staging, &mut context_copy);
    assert!(again.is_empty());
}

#[test]
fn released_objects_release_nothing_more() {
    let mut fake = Fake::new();
    let context = context(&mut fake).unwrap();
    let mut copy = *context;
    let names: Vec<String> = copy.release().iter().map(name_of).collect();
    assert_eq!(names, vec!["DestroyCommandPool", "DestroyDevice", "DestroyInstance"]);
    assert!(copy.release().is_empty());
    let mut instance = *context.instance();
    assert_eq!(instance.release().len(), 1);
    assert_eq!(instance.handle().address, 0);
    assert!(instance.release().is_empty());
}

// ---------------------------------------------------------------------
// Names.

#[test]
fn names_end_with_their_only_zero_byte() {
    assert_eq!(c_string(b"main").unwrap(), b"main\0".to_vec());
    assert_eq!(c_string(b"").unwrap(), vec![0]);
    assert_eq!(code(c_string(b"ma\0in")), ErrorCode::FFI(2));
    assert_eq!(code(c_string(b"\0")), ErrorCode::FFI(0));
    assert_eq!(code(c_string(b"a\0b\0")), ErrorCode::FFI(1));
}

#[test]
fn status_becomes_a_result() {
    assert!(VkResult::VK_SUCCESS.into_result().is_ok());
    for status in [
        VkResult::VK_NOT_READY,
        VkResult::VK_TIMEOUT,
        VkResult::VK_INCOMPLETE,
        VkResult::VK_ERROR_DEVICE_LOST,
        VkResult::VK_RESULT_MAX_ENUM,
    ] {
        assert_eq!(code(status.into_result()), ErrorCode::VkResult(status));
    }
    assert_eq!(Error::from(VkResult::VK_TIMEOUT).code(), &ErrorCode::VkResult(VkResult::VK_TIMEOUT));
    assert_eq!(
        Error::from(ErrorCode::ShaderLoadUnaligned).code(),
        &ErrorCode::ShaderLoadUnaligned
    );
    assert_eq!(Error::new(ErrorCode::FFI(3)), Error::from(ErrorCode::FFI(3)));
}

#[test]
fn numbers_of_the_driver() {
    assert_eq!(VkResult::VK_SUCCESS.value(), 0);
    assert_eq!(VkResult::VK_ERROR_DEVICE_LOST.value(), -4);
    assert_eq!(VkResult::VK_ERROR_OUT_OF_POOL_MEMORY.value(), -1000069000);
    assert_eq!(VkResult::VK_RESULT_MAX_ENUM.value(), 0x7fff_ffff);
    assert_eq!(VkStructureType::VK_STRUCTURE_TYPE_SUBMIT_INFO.value(), 4);
    assert_eq!(VkStructureType::VK_STRUCTURE_TYPE_BUFFER_MEMORY_BARRIER.value(), 44);
    assert_eq!(VkDescriptorType::VK_DESCRIPTOR_TYPE_STORAGE_BUFFER.value(), 7);
    assert_eq!(VkPipelineBindPoint::VK_PIPELINE_BIND_POINT_COMPUTE.value(), 1);
    assert_eq!(VkQueueFlagBits::VK_QUEUE_COMPUTE_BIT.bits(), 0x2);
    assert_eq!(VkBufferUsageFlagBits::VK_BUFFER_USAGE_STORAGE_BUFFER_BIT.bits(), 0x20);
    assert_eq!(VkMemoryPropertyFlagBits::VK_MEMORY_PROPERTY_HOST_CACHED_BIT.bits(), 0x8);
    assert_eq!(VkShaderStageFlagBits::VK_SHADER_STAGE_COMPUTE_BIT.bits(), 0x20);
    assert_eq!(VkAccessFlagBits::VK_ACCESS_HOST_WRITE_BIT.bits(), 0x4000);
    assert_eq!(VkPipelineStageFlagBits::VK_PIPELINE_STAGE_COMPUTE_SHADER_BIT.bits(), 0x800);
    assert!(family(0x2).has_compute_queue_bit());
    assert!(family(0xf).has_compute_queue_bit());
    assert!(!family(0x1 | 0x4 | 0x8).has_compute_queue_bit());
    assert!(!VkQueueFamilyProperties::new().has_compute_queue_bit());
    assert_eq!(VkExtent3D::new(), VkExtent3D { width: 0, height: 0, depth: 0 });
}

// ---------------------------------------------------------------------
// Typed views.

fn view<L: Layout>(
    fake: &mut Fake,
    setup: BufferViewSetup<L>,
) -> Result<BufferView<L>, Error> {
    drive(
        fake,
        setup,
        BufferViewSetup::<L>::call,
        BufferViewSetup::<L>::reply,
        BufferViewSetup::<L>::unwind,
        BufferViewSetup::<L>::finish,
    )
}

#[test]
fn layouts_know_their_sizes() {
    let array = BindingVariant::array(BindingArray::<u32>::new(6));
    assert_eq!(array.size(), 24);
    let value = BindingVariant::value(BindingValue::<u64>::new());
    assert_eq!(value.size(), 8);
    assert_eq!(BindingArray::<u16>::new(5).count(), 5);
    let one = BufferLayout::new_0(BindingVariant::array(BindingArray::<u8>::new(3)));
    assert_eq!((one.size(), one.entries().clone()), (3, vec![3]));
    let two = BufferLayout::new_1(array, value);
    assert_eq!((two.size(), two.entries().clone()), (32, vec![24, 8]));
    let three = BufferLayout::new_2(
        BindingVariant::value(BindingValue::<u8>::new()),
        BindingVariant::value(BindingValue::<u16>::new()),
        BindingVariant::value(BindingValue::<[u32; 3]>::new()),
    );
    assert_eq!((three.size(), three.entries().clone()), (15, vec![1, 2, 12]));
    let four = BufferLayout::new_3(
        BindingVariant::array(BindingArray::<i32>::new(2)),
        BindingVariant::array(BindingArray::<i32>::new(0)),
        BindingVariant::value(BindingValue::<()>::new()),
        BindingVariant::array(BindingArray::<u64>::new(4)),
    );
    assert_eq!((four.size(), four.entries().clone()), (40, vec![8, 0, 0, 32]));
    let plain = BufferLayout::new(vec![5, 6, 7, 8, 9]);
    assert_eq!((plain.size(), plain.entries().clone()), (35, vec![5, 6, 7, 8, 9]));
}

#[test]
fn typed_bindings_reach_their_regions() {
    let mut fake = Fake::new();
    let context = context(&mut fake).unwrap();
    let layout = BufferLayout::new_1(
        BindingVariant::array(BindingArray::<u32>::new(3)),
        BindingVariant::value(BindingValue::<u64>::new()),
    );
    let made = view(&mut fake, BufferViewBuilder::new(&context).layout(layout).build()).unwrap();
    assert_eq!(made.buffer().region_count(), 2);
    let first = made.first_binding();
    let second = made.second_binding();
    fake.to_write = bytes_of(&[1, 2, 3]);
    access(&mut fake, first.update_array()).unwrap();
    fake.to_write = 77u64.to_ne_bytes().to_vec();
    access(&mut fake, second.update_value()).unwrap();
    access(&mut fake, first.fetch_array()).unwrap();
    assert_eq!(words(&fake.read), vec![1, 2, 3]);
    access(&mut fake, second.fetch_value()).unwrap();
    assert_eq!(fake.read, 77u64.to_ne_bytes().to_vec());
    assert_eq!(first.update_array().span, 12);
    assert_eq!(second.fetch_value().span, 8);
    let untyped = made.nth_binding(1).unwrap();
    access(&mut fake, untyped.fetch()).unwrap();
    assert_eq!(fake.read, 77u64.to_ne_bytes().to_vec());
    fake.to_write = 5u64.to_ne_bytes().to_vec();
    access(&mut fake, untyped.update()).unwrap();
    access(&mut fake, second.fetch_value()).unwrap();
    assert_eq!(fake.read, 5u64.to_ne_bytes().to_vec());
    assert!(made.nth_binding(2).is_none());
}

#[test]
fn single_bindings_are_built_directly() {
    let mut fake = Fake::new();
    let context = context(&mut fake).unwrap();
    let array = view(&mut fake, BufferViewBuilder::new(&context).bind_array::<u16>(5).build()).unwrap();
    assert_eq!(array.buffer().staging_buffer().buffer_size(), 10);
    assert_eq!(array.binding().update_array().span, 10);
    let value = view(&mut fake, BufferViewBuilder::new(&context).bind_value::<[u8; 7]>().build()).unwrap();
    assert_eq!(value.buffer().staging_buffer().buffer_size(), 7);
    assert_eq!(value.binding().update_value().span, 7);
    let wide = BufferLayout::new_3(
        BindingVariant::value(BindingValue::<u8>::new()),
        BindingVariant::value(BindingValue::<u8>::new()),
        BindingVariant::value(BindingValue::<u8>::new()),
        BindingVariant::array(BindingArray::<u32>::new(2)),
    );
    let wide = view(&mut fake, BufferView::new(wide, &context)).unwrap();
    let third = wide.third_binding();
    let fourth = wide.fourth_binding();
    assert_eq!(third.update_value().region.offset(), 2);
    assert_eq!(fourth.fetch_array().region.offset(), 3);
    assert_eq!(fourth.fetch_array().span, 8);
}

// ---------------------------------------------------------------------
// Whole computations.

#[test]
fn fibonacci_32() {
    let count = 32usize;
    let mut fake = Fake::new();
    fake.files.insert("data/fibonacci.comp.spv".to_string(), shader_code(FIBONACCI));
    let context = context(&mut fake).unwrap();
    let made = view(&mut fake, BufferViewBuilder::new(&context).bind_array::<u32>(count).build()).unwrap();
    let setup = PipelineBuilder::new(made.buffer())
        .shader("data/fibonacci.comp.spv".to_string())
        .specialization(vec![entry((count as u32).to_ne_bytes())])
        .build();
    let fibonacci = made_pipeline(&mut fake, setup).unwrap();
    let binding = made.binding();
    let input: Vec<u32> = (0..count as u32).collect();
    fake.to_write = bytes_of(&input);
    access(&mut fake, binding.update_array()).unwrap();
    dispatch_once(&mut fake, &fibonacci, count).unwrap();
    access(&mut fake, binding.fetch_array()).unwrap();
    let mut expected = vec![0u32, 1];
    while expected.len() < count {
        let n = expected.len();
        expected.push(expected[n - 1].wrapping_add(expected[n - 2]));
    }
    assert_eq!(words(&fake.read), expected);
    assert_eq!(expected[..8], [0, 1, 1, 2, 3, 5, 8, 13]);
    assert_eq!(expected[31], 1346269);
}

#[test]
fn identity_4096() {
    let count = 4096usize;
    let mut fake = Fake::new();
    let context = context(&mut fake).unwrap();
    let made = view(&mut fake, BufferViewBuilder::new(&context).bind_array::<u32>(count).build()).unwrap();
    let identity = pipeline(&mut fake, made.buffer(), IDENTITY, None).unwrap();
    let input: Vec<u32> = (0..count as u32).collect();
    fake.to_write = bytes_of(&input);
    access(&mut fake, made.binding().update_array()).unwrap();
    dispatch_once(&mut fake, &identity, count).unwrap();
    access(&mut fake, made.binding().fetch_array()).unwrap();
    assert_eq!(words(&fake.read), input);
}

#[test]
fn two_binding_sum() {
    let mut fake = Fake::new();
    let context = context(&mut fake).unwrap();
    let layout = BufferLayout::new_1(
        BindingVariant::array(BindingArray::<u32>::new(6)),
        BindingVariant::array(BindingArray::<u32>::new(6)),
    );
    let made = view(&mut fake, BufferViewBuilder::new(&context).layout(layout).build()).unwrap();
    let sum = pipeline(&mut fake, made.buffer(), SUM, None).unwrap();
    fake.to_write = bytes_of(&[1, 2, 3, 4, 5, 6]);
    access(&mut fake, made.first_binding().update_array()).unwrap();
    fake.to_write = bytes_of(&[10, 20, 30, 40, 50, 60]);
    access(&mut fake, made.second_binding().update_array()).unwrap();
    dispatch_once(&mut fake, &sum, 6).unwrap();
    access(&mut fake, made.second_binding().fetch_array()).unwrap();
    assert_eq!(words(&fake.read), vec![11, 22, 33, 44, 55, 66]);
    access(&mut fake, made.first_binding().fetch_array()).unwrap();
    assert_eq!(words(&fake.read), vec![1, 2, 3, 4, 5, 6]);
}

#[test]
fn push_constant_scaling() {
    let mut fake = Fake::new();
    let context = context(&mut fake).unwrap();
    let made = view(&mut fake, BufferViewBuilder::new(&context).bind_array::<i32>(16).build()).unwrap();
    let scale = pipeline_with_room(&mut fake, made.buffer(), SCALE, None, 4).unwrap();
    fake.to_write = bytes_of_ints(&[1; 16]);
    access(&mut fake, made.binding().update_array()).unwrap();
    dispatch_with(&mut fake, &scale, (16, 1, 1), Some(vec![entry(7u32.to_ne_bytes())])).unwrap();
    access(&mut fake, made.binding().fetch_array()).unwrap();
    assert_eq!(ints(&fake.read), vec![7; 16]);
}

fn reference_labels(table: &[i32], width: usize, height: usize) -> Vec<i32> {
    let mut labels = vec![-1i32; table.len()];
    for start in 0..table.len() {
        if table[start] < 0 || labels[start] >= 0 {
            continue;
        }
        let mut pending = vec![start];
        labels[start] = start as i32;
        while let Some(at) = pending.pop() {
            let (x, y) = (at % width, at / width);
            let mut around = Vec::new();
            if x > 0 {
                around.push(at - 1);
            }
            if x + 1 < width {
                around.push(at + 1);
            }
            if y > 0 {
                around.push(at - width);
            }
            if y + 1 < height {
                around.push(at + width);
            }
            for next in around {
                if table[next] >= 0 && labels[next] < 0 {
                    labels[next] = start as i32;
                    pending.push(next);
                }
            }
        }
    }
    labels
}

#[test]
fn connected_component_labeling_8_by_8() {
    let (width, height) = (8usize, 8usize);
    let table: Vec<i32> = vec![
        0, 0, 0, 0, 0, 0, 0, 0, //
        0, 1, 1, 0, 1, 1, 1, 0, //
        0, 1, 1, 0, 1, 1, 1, 0, //
        1, 1, 1, 0, 0, 0, 0, 1, //
        0, 1, 1, 1, 0, 0, 0, 1, //
        0, 0, 0, 0, 0, 1, 1, 0, //
        0, 1, 0, 1, 1, 1, 1, 0, //
        0, 1, 1, 1, 0, 0, 0, 0, //
    ];
    let table: Vec<i32> =
        table.iter().enumerate().map(|(i, v)| if *v == 0 { -1 } else { i as i32 }).collect();
    let dimensions = || vec![entry((width as u32).to_ne_bytes()), entry((height as u32).to_ne_bytes())];

    let mut fake = Fake::new();
    let context = context(&mut fake).unwrap();
    let made = view(&mut fake, BufferViewBuilder::new(&context).bind_array::<i32>(64).build()).unwrap();
    let column = pipeline(&mut fake, made.buffer(), CCL_COLUMN, Some(dimensions())).unwrap();
    let merge =
        pipeline_with_room(&mut fake, made.buffer(), CCL_MERGE, Some(dimensions()), 4).unwrap();
    let relabel = pipeline(&mut fake, made.buffer(), CCL_RELABEL, None).unwrap();
    let binding = made.binding();
    fake.to_write = bytes_of_ints(&table);
    access(&mut fake, binding.update_array()).unwrap();

    fake.calls.clear();
    dispatch_once(&mut fake, &column, width).unwrap();
    let mut step_index = 0u32;
    let mut n = width >> 1;
    let mut grids = Vec::new();
    while n != 0 {
        grids.push((n, step_index));
        dispatch_with(&mut fake, &merge, (n, 1, 1), Some(vec![entry(step_index.to_ne_bytes())]))
            .unwrap();
        n >>= 1;
        step_index += 1;
    }
    dispatch_once(&mut fake, &relabel, table.len()).unwrap();
    access(&mut fake, binding.fetch_array()).unwrap();

    assert_eq!(grids, vec![(4, 0), (2, 1), (1, 2)]);
    let dispatched: Vec<(u32, u32, u32)> = fake
        .calls
        .iter()
        .filter_map(|call| match call {
            Call::Record { commands, .. } => commands.iter().find_map(|c| match c {
                Command::Dispatch { x, y, z } => Some((*x, *y, *z)),
                _ => None,
            }),
            _ => None,
        })
        .collect();
    assert_eq!(dispatched, vec![(8, 1, 1), (4, 1, 1), (2, 1, 1), (1, 1, 1), (64, 1, 1)]);
    let labels = ints(&fake.read);
    assert_eq!(labels, reference_labels(&table, width, height));
    assert_eq!(labels[9], 9);
    assert_eq!(labels[24], 9);
    assert_eq!(labels[35], 9);
    assert_eq!(labels[12], 12);
    assert_eq!(labels[22], 12);
    assert_eq!(labels[31], 31);
    assert_eq!(labels[39], 31);
    assert_eq!(labels[45], 45);
    assert_eq!(labels[49], 45);
    assert_eq!(labels[59], 45);
    assert_eq!(labels[0], -1);
}

#[test]
fn complete_builders_build() {
    let mut fake = Fake::new();
    let context = context(&mut fake).unwrap();
    let buffer = buffer(&mut fake, &context, vec![4]).unwrap();
    let without = PipelineBuilder::new(&buffer).shader_bytes(shader_code(IDENTITY)).build();
    assert!(without.call().is_some());
    let with = PipelineBuilder::new(&buffer)
        .specialization(vec![entry([1u8])])
        .push_constant_size(2)
        .shader_bytes(shader_code(IDENTITY))
        .build();
    let made = made_pipeline(&mut fake, with).unwrap();
    let plain = DispatchBuilder::new(&made).workgroup_count(1, 2, 3).build();
    assert!(plain.call().is_some());
    let pushed = DispatchBuilder::new(&made)
        .push_constants(vec![entry([1u8, 2])])
        .workgroup_count(1, 2, 3)
        .build();
    assert!(pushed.call().is_some());
    let compute: ComputePipelineSetup = ComputePipeline::new(
        Arc::clone(buffer.staging_buffer()),
        &made.shader_module,
        Vec::new(),
        0,
    );
    assert!(compute.call().is_some());
    let count = WorkgroupCount { x: 1, y: 1, z: 1 };
    let dispatch = CommandDispatch::new(Arc::clone(&made.compute_pipeline), count, Vec::new());
    assert!(dispatch.call().is_some());
}

#[test]
fn bindings_that_the_layout_names_are_there() {
    let mut fake = Fake::new();
    let context = context(&mut fake).unwrap();
    let made = view(&mut fake, BufferViewBuilder::new(&context).bind_array::<u8>(3).build()).unwrap();
    assert_eq!(made.binding().fetch_array().region.offset(), 0);
    assert_eq!(made.first_binding().fetch_array().region.size(), 3);
    assert!(made.nth_binding(0).is_some());
    assert!(made.nth_binding(1).is_none());
    assert_eq!(made.binding().fetch_array().region.size(), 3);
}

#[test]
fn push_constants_need_room_in_the_layout() {
    let two = vec![entry(7u32.to_ne_bytes()), entry(9u16.to_ne_bytes())];
    assert!(push_constants_fit(&two, 6));
    assert!(push_constants_fit(&two, 128));
    assert!(!push_constants_fit(&two, 5));
    assert!(!push_constants_fit(&two, 0));
    let nothing: Vec<ConstantEntry> = Vec::new();
    assert!(push_constants_fit(&nothing, 0));
    assert!(push_constants_fit(&nothing, 4));
    let empty = vec![entry([0u8; 0])];
    assert!(!push_constants_fit(&empty, 0));
    assert!(push_constants_fit(&empty, 1));
    assert!(packed_within(&two, 6));
    assert!(!packed_within(&two, 5));
    assert!(packed_within(&nothing, 0));
    assert!(constants_fit(&two));
}

#[test]
fn pushed_bytes_lie_inside_the_declared_range() {
    let mut fake = Fake::new();
    let context = context(&mut fake).unwrap();
    let buffer = buffer(&mut fake, &context, vec![16]).unwrap();
    let made = pipeline_with_room(&mut fake, &buffer, ECHO_PUSH, None, 8).unwrap();
    let range = fake.ranges[&made.compute_pipeline.layout.address].unwrap();
    assert_eq!(range, (0x20, 0, 8));
    for size in [1usize, 4, 8] {
        let constants = vec![ConstantEntry::new(vec![0xab; size])];
        let dispatch = dispatch_with(&mut fake, &made, (1, 1, 1), Some(constants)).unwrap();
        let commands = &fake.recordings[&dispatch.command_buffer.address];
        match &commands[1] {
            Command::PushConstants { layout, stage_flags, offset, data } => {
                assert_eq!(*layout, made.compute_pipeline.layout);
                assert_eq!((*stage_flags, *offset), (range.0, 0));
                assert!(data.len() <= range.2 as usize);
                assert_eq!(data, &vec![0xab; size]);
            },
            other => panic!("unexpected command {:?}", other),
        }
    }
    assert!(!push_constants_fit(&vec![ConstantEntry::new(vec![0; 9])], 8));
}

#[test]
fn every_status_is_found_by_its_number() {
    let statuses = [
        VkResult::VK_SUCCESS,
        VkResult::VK_NOT_READY,
        VkResult::VK_TIMEOUT,
        VkResult::VK_EVENT_SET,
        VkResult::VK_EVENT_RESET,
        VkResult::VK_INCOMPLETE,
        VkResult::VK_ERROR_OUT_OF_HOST_MEMORY,
        VkResult::VK_ERROR_OUT_OF_DEVICE_MEMORY,
        VkResult::VK_ERROR_INITIALIZATION_FAILED,
        VkResult::VK_ERROR_DEVICE_LOST,
        VkResult::VK_ERROR_MEMORY_MAP_FAILED,
        VkResult::VK_ERROR_LAYER_NOT_PRESENT,
        VkResult::VK_ERROR_EXTENSION_NOT_PRESENT,
        VkResult::VK_ERROR_FEATURE_NOT_PRESENT,
        VkResult::VK_ERROR_INCOMPATIBLE_DRIVER,
        VkResult::VK_ERROR_TOO_MANY_OBJECTS,
        VkResult::VK_ERROR_FORMAT_NOT_SUPPORTED,
        VkResult::VK_ERROR_FRAGMENTED_POOL,
        VkResult::VK_ERROR_OUT_OF_POOL_MEMORY,
        VkResult::VK_ERROR_INVALID_EXTERNAL_HANDLE,
        VkResult::VK_ERROR_SURFACE_LOST_KHR,
        VkResult::VK_ERROR_NATIVE_WINDOW_IN_USE_KHR,
        VkResult::VK_SUBOPTIMAL_KHR,
        VkResult::VK_ERROR_OUT_OF_DATE_KHR,
        VkResult::VK_ERROR_INCOMPATIBLE_DISPLAY_KHR,
        VkResult::VK_ERROR_VALIDATION_FAILED_EXT,
        VkResult::VK_ERROR_INVALID_SHADER_NV,
        VkResult::VK_ERROR_INVALID_DRM_FORMAT_MODIFIER_PLANE_LAYOUT_EXT,
        VkResult::VK_ERROR_FRAGMENTATION_EXT,
        VkResult::VK_ERROR_NOT_PERMITTED_EXT,
        VkResult::VK_ERROR_INVALID_DEVICE_ADDRESS_EXT,
        VkResult::VK_ERROR_FULL_SCREEN_EXCLUSIVE_MODE_LOST_EXT,
        VkResult::VK_RESULT_MAX_ENUM,
    ];
    for status in statuses {
        assert_eq!(VkResult::from_value(status.value()), Some(status));
        assert_eq!(VkResult::decode(status.value()), status);
    }
    assert_eq!(VkResult::from_value(-4), Some(VkResult::VK_ERROR_DEVICE_LOST));
    assert_eq!(VkResult::from_value(-1000069000), Some(VkResult::VK_ERROR_OUT_OF_POOL_MEMORY));
    for unknown in [6, -13, 12345, i32::MIN, 0x7fff_fffe] {
        assert_eq!(VkResult::from_value(unknown), None);
        assert_eq!(VkResult::decode(unknown), VkResult::VK_RESULT_MAX_ENUM);
    }
}

#[test]
fn one_handle_for_both_buffers_is_no_staging_buffer() {
    let mut fake = Fake::new();
    fake.one_buffer = true;
    let context = context(&mut fake).unwrap();
    fake.log.clear();
    let result = buffer(&mut fake, &context, vec![4]);
    assert_eq!(code(result), ErrorCode::VkResult(VkResult::VK_ERROR_INITIALIZATION_FAILED));
    let at = fake.log.iter().rposition(|name| name == "Record").unwrap();
    assert_eq!(
        fake.log[at + 1..],
        [
            "DestroyFence",
            "FreeCommandBuffers",
            "DestroyFence",
            "FreeCommandBuffers",
            "UnmapMemory",
            "FreeMemory",
            "DestroyBuffer",
            "FreeMemory",
            "DestroyBuffer",
        ]
    );
}

#[test]
fn a_made_staging_buffer_has_two_buffers_of_its_size() {
    let mut fake = Fake::new();
    let context = context(&mut fake).unwrap();
    let buffer = buffer(&mut fake, &context, vec![24, 8]).unwrap();
    let staging = buffer.staging_buffer();
    assert_eq!(staging.host_buffer_memory().whole_size(), 32);
    assert_eq!(staging.device_buffer_memory().whole_size(), 32);
    assert_eq!(staging.buffer_size(), 32);
    assert_ne!(staging.host_buffer_memory().buffer(), staging.device_buffer_memory().buffer());
}
