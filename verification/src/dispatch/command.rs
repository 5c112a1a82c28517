//! The recorded dispatch of a grid of workgroups on a pipeline.

use vstd::prelude::*;
use std::sync::Arc;
use super::compute::{covers, push_constant_range, ComputePipeline};
use super::constants::{images, pack, spec_push_constants_fit, ConstantEntry};
use super::masks::{
    ACCESS_HOST_WRITE, ACCESS_SHADER_READ, ACCESS_SHADER_WRITE, ACCESS_TRANSFER_READ,
    SHADER_STAGE_COMPUTE, STAGE_COMPUTE_SHADER, STAGE_HOST, STAGE_TRANSFER,
};
use super::region::{allocate_info, begin_info, buffer_barrier, fence_info};
use super::submission::{Submission, SubmissionKind};
use crate::device::{CommandPool, Device};
use crate::driver::{Call, Command, Reply, ReplyKind};
use crate::error::{Error, ErrorCode};
use crate::layout::{concat, lemma_concat_len};
use crate::vk::enums::{
    VkAccessFlagBits, VkCommandBufferLevel, VkFenceCreateFlagBits, VkPipelineBindPoint,
    VkPipelineStageFlagBits, VkResult, VkShaderStageFlagBits,
};
use crate::vk::types::{
    VK_FLAGS_NONE, VK_WHOLE_SIZE, VkBuffer, VkBufferMemoryBarrier, VkCommandBuffer,
    VkCommandBufferAllocateInfo, VkCommandBufferBeginInfo, VkDescriptorSet, VkFence,
    VkFenceCreateInfo, VkPipeline, VkPipelineLayout, VkPushConstantRange,
};

verus! {

/// The number of workgroups of a dispatch in each dimension.
#[derive(Debug, Clone, Copy, PartialEq, Eq, Structural)]
pub struct WorkgroupCount {
    pub x: u32,
    pub y: u32,
    pub z: u32,
}

/// Whether `commands` are the recording of a dispatch of `count`
/// workgroups on a pipeline with the given handles over the buffer
/// `buffer`, with the push constants of the byte images `constants`.
///
/// In order: a barrier on the whole buffer that orders the writes of the
/// host before the reads of the shader; where constants were given, one
/// command that sets their packed bytes as the push constants of the
/// compute stage; the binding of the pipeline and of its descriptor set
/// as set 0; the dispatch; a barrier on the whole buffer that orders the
/// writes of the shader before the reads of transfers and of shaders.
///
/// `range` is the push-constant range that the layout was made with: the
/// bytes that are pushed lie inside it.
pub open spec fn dispatch_recording(
    commands: Seq<Command>,
    pipeline: VkPipeline,
    layout: VkPipelineLayout,
    range: Option<VkPushConstantRange>,
    descriptor_set: VkDescriptorSet,
    buffer: VkBuffer,
    count: WorkgroupCount,
    constants: Seq<Seq<u8>>,
) -> bool {
    let shift: int = if constants.len() == 0 {
        0
    } else {
        1
    };
    &&& commands.len() == 5 + shift
    &&& commands[0] == (Command::PipelineBarrier {
        src_stage_mask: STAGE_HOST,
        dst_stage_mask: STAGE_COMPUTE_SHADER,
        dependency_flags: VK_FLAGS_NONE,
        buffer_barrier: buffer_barrier(
            ACCESS_HOST_WRITE,
            ACCESS_SHADER_READ,
            buffer,
            0,
            VK_WHOLE_SIZE,
        ),
    })
    &&& constants.len() > 0 ==> {
        &&& commands[1] matches Command::PushConstants { layout: of, stage_flags, offset, data }
        &&& of == layout
        &&& stage_flags == SHADER_STAGE_COMPUTE
        &&& offset == 0
        &&& data@ == concat(constants)
        &&& covers(range, 0, data@.len() as int)
    }
    &&& commands[1 + shift] == (Command::BindPipeline {
        bind_point: VkPipelineBindPoint::VK_PIPELINE_BIND_POINT_COMPUTE,
        pipeline,
    })
    &&& commands[2 + shift] == (Command::BindDescriptorSets {
        bind_point: VkPipelineBindPoint::VK_PIPELINE_BIND_POINT_COMPUTE,
        layout,
        first_set: 0,
        descriptor_set,
    })
    &&& commands[3 + shift] == (Command::Dispatch { x: count.x, y: count.y, z: count.z })
    &&& commands[4 + shift] == (Command::PipelineBarrier {
        src_stage_mask: STAGE_COMPUTE_SHADER,
        dst_stage_mask: STAGE_TRANSFER | STAGE_COMPUTE_SHADER,
        dependency_flags: VK_FLAGS_NONE,
        buffer_barrier: buffer_barrier(
            ACCESS_SHADER_WRITE,
            ACCESS_TRANSFER_READ | ACCESS_SHADER_READ,
            buffer,
            0,
            VK_WHOLE_SIZE,
        ),
    })
}

/// One recorded unit of work for a pipeline and a grid of workgroups.
#[derive(Debug)]
pub struct CommandDispatch {
    pub compute_pipeline: Arc<ComputePipeline>,
    pub command_buffer: VkCommandBuffer,
    pub fence: VkFence,
}

impl CommandDispatch {
    /// Begins the making of a dispatch of `workgroup_count` workgroups on
    /// `compute_pipeline`, with the push constants `push_constants`. Their
    /// packed bytes have to lie within the room for push constants that
    /// the layout of the pipeline was made with; `push_constants_fit`
    /// tests it.
    pub fn new(
        compute_pipeline: Arc<ComputePipeline>,
        workgroup_count: WorkgroupCount,
        push_constants: Vec<ConstantEntry>,
    ) -> (r: CommandDispatchSetup)
        requires
            spec_push_constants_fit(push_constants@, compute_pipeline.push_constant_size),
        ensures
            r@ == CommandDispatchSetupView::begin(
                *compute_pipeline,
                workgroup_count,
                images(push_constants@),
            ),
    {
        CommandDispatchSetup {
            compute_pipeline,
            workgroup_count,
            push_constants,
            stage: DispatchStage::AllocateCommandBuffer,
            command_buffer: VkCommandBuffer::null(),
            fence: VkFence::null(),
        }
    }

    /// The device of the dispatch.
    pub open spec fn device(&self) -> Device {
        self.compute_pipeline.device()
    }

    /// The pool of the command buffer of the dispatch.
    pub open spec fn command_pool(&self) -> CommandPool {
        self.compute_pipeline.staging_buffer@.command_pool
    }

    /// Begins a run of the recorded work. Every run of one dispatch makes
    /// the same calls.
    pub fn dispatch(&self) -> (r: Submission)
        ensures
            r == Submission::begin(
                SubmissionKind::Dispatch,
                self.device(),
                self.command_buffer,
                self.fence,
            ),
    {
        Submission::new(
            SubmissionKind::Dispatch,
            self.compute_pipeline.staging_buffer.command_pool().device(),
            self.command_buffer,
            self.fence,
        )
    }

    /// Whether the dispatch has been released.
    pub open spec fn released(&self) -> bool {
        self.fence.address == 0 && self.command_buffer.address == 0
    }

    /// The calls that give the dispatch back: the fence is destroyed, then
    /// the command buffer is freed. None where it has been released
    /// before.
    pub open spec fn release_calls(&self) -> Seq<Call> {
        let device = self.device().handle();
        if self.released() {
            seq![]
        } else {
            seq![
                Call::DestroyFence { device, fence: self.fence },
                Call::FreeCommandBuffers {
                    device,
                    command_pool: self.command_pool().handle,
                    command_buffer: self.command_buffer,
                },
            ]
        }
    }

    /// The calls that give the dispatch back.
    pub fn to_release(&self) -> (calls: Vec<Call>)
        ensures
            calls@ == self.release_calls(),
    {
        let mut calls: Vec<Call> = Vec::new();
        if !(self.fence.is_null() && self.command_buffer.is_null()) {
            let command_pool = self.compute_pipeline.staging_buffer.command_pool();
            let device = command_pool.device().handle();
            calls.push(Call::DestroyFence { device, fence: self.fence });
            calls.push(
                Call::FreeCommandBuffers {
                    device,
                    command_pool: command_pool.handle(),
                    command_buffer: self.command_buffer,
                },
            );
        }
        assert(calls@ =~= self.release_calls());
        calls
    }

    /// Releases the dispatch: says which calls give it back, and forgets
    /// its handles.
    pub fn release(&mut self) -> (calls: Vec<Call>)
        ensures
            calls@ == old(self).release_calls(),
            final(self).released(),
            final(self).compute_pipeline == old(self).compute_pipeline,
    {
        let calls = self.to_release();
        self.fence = VkFence::null();
        self.command_buffer = VkCommandBuffer::null();
        assert(calls@ =~= old(self).release_calls());
        calls
    }
}

/// How far the making of a dispatch has come.
#[derive(Debug, Clone, Copy, PartialEq, Eq, Structural)]
pub enum DispatchStage {
    /// The command buffer is being allocated.
    AllocateCommandBuffer,
    /// The fence is being created.
    CreateFence,
    /// The work is being recorded.
    Record,
    /// The dispatch is made.
    Ready,
    /// The driver returned this status, which is not success.
    Failed(VkResult),
}

/// The making of a [`CommandDispatch`].
#[derive(Debug)]
pub struct CommandDispatchSetup {
    compute_pipeline: Arc<ComputePipeline>,
    workgroup_count: WorkgroupCount,
    push_constants: Vec<ConstantEntry>,
    stage: DispatchStage,
    command_buffer: VkCommandBuffer,
    fence: VkFence,
}

/// What the making of a dispatch holds. A handle is null until the driver
/// has given it.
pub struct CommandDispatchSetupView {
    pub compute_pipeline: ComputePipeline,
    pub workgroup_count: WorkgroupCount,
    /// The byte images of the push constants.
    pub push_constants: Seq<Seq<u8>>,
    pub stage: DispatchStage,
    pub command_buffer: VkCommandBuffer,
    pub fence: VkFence,
}

impl CommandDispatchSetupView {
    /// The making of a dispatch, of which nothing has happened yet.
    pub open spec fn begin(
        compute_pipeline: ComputePipeline,
        workgroup_count: WorkgroupCount,
        push_constants: Seq<Seq<u8>>,
    ) -> Self {
        CommandDispatchSetupView {
            compute_pipeline,
            workgroup_count,
            push_constants,
            stage: DispatchStage::AllocateCommandBuffer,
            command_buffer: VkCommandBuffer::at(0),
            fence: VkFence::at(0),
        }
    }

    /// The pool of the command buffer.
    pub open spec fn command_pool(self) -> CommandPool {
        self.compute_pipeline.staging_buffer@.command_pool
    }

    /// The shape of the reply that is waited for; none once the making has
    /// ended.
    pub open spec fn awaits(self) -> Option<ReplyKind> {
        match self.stage {
            DispatchStage::AllocateCommandBuffer | DispatchStage::CreateFence => Some(
                ReplyKind::Handle,
            ),
            DispatchStage::Record => Some(ReplyKind::Status),
            _ => None,
        }
    }

    /// Whether `c` is the call to make now: the allocation of one primary
    /// command buffer, the creation of a signaled fence, or the recording
    /// of the work.
    pub open spec fn calls(self, c: Option<Call>) -> bool {
        let device = self.command_pool().device.handle();
        match self.stage {
            DispatchStage::AllocateCommandBuffer => c == Some(
                Call::AllocateCommandBuffers { device, info: allocate_info(self.command_pool()) },
            ),
            DispatchStage::CreateFence => c == Some(
                Call::CreateFence { device, info: fence_info() },
            ),
            DispatchStage::Record => {
                &&& c matches Some(Call::Record { command_buffer, begin, commands })
                &&& command_buffer == self.command_buffer
                &&& begin == begin_info()
                &&& dispatch_recording(
                    commands@,
                    self.compute_pipeline.handle,
                    self.compute_pipeline.layout,
                    push_constant_range(self.compute_pipeline.push_constant_size),
                    self.compute_pipeline.descriptor_set,
                    self.compute_pipeline.staging_buffer@.device_buffer_memory.buffer,
                    self.workgroup_count,
                    self.push_constants,
                )
            },
            _ => c.is_none(),
        }
    }

    /// The making after the answer `reply` to the pending call: with
    /// success one step further; with any other status, failed with that
    /// status.
    pub open spec fn replied(self, reply: Reply) -> Self {
        match (self.stage, reply) {
            (
                DispatchStage::AllocateCommandBuffer,
                Reply::Handle(VkResult::VK_SUCCESS, address),
            ) => CommandDispatchSetupView {
                command_buffer: VkCommandBuffer::at(address),
                stage: DispatchStage::CreateFence,
                ..self
            },
            (DispatchStage::CreateFence, Reply::Handle(VkResult::VK_SUCCESS, address)) => {
                CommandDispatchSetupView {
                    fence: VkFence::at(address),
                    stage: DispatchStage::Record,
                    ..self
                }
            },
            (DispatchStage::Record, Reply::Status(VkResult::VK_SUCCESS)) => {
                CommandDispatchSetupView { stage: DispatchStage::Ready, ..self }
            },
            (DispatchStage::Ready, _) | (DispatchStage::Failed(_), _) => self,
            (_, reply) => CommandDispatchSetupView {
                stage: DispatchStage::Failed(reply.status()),
                ..self
            },
        }
    }

    /// The calls that give back what a failed making had acquired, the
    /// later acquired first: the fence, then the command buffer; each only
    /// where it was acquired. None unless the making has failed.
    pub open spec fn unwind_calls(self) -> Seq<Call> {
        let device = self.command_pool().device.handle();
        let fence = if self.fence.address == 0 {
            seq![]
        } else {
            seq![Call::DestroyFence { device, fence: self.fence }]
        };
        let command_buffer = if self.command_buffer.address == 0 {
            seq![]
        } else {
            seq![
                Call::FreeCommandBuffers {
                    device,
                    command_pool: self.command_pool().handle,
                    command_buffer: self.command_buffer,
                },
            ]
        };
        if self.stage is Failed {
            fence + command_buffer
        } else {
            seq![]
        }
    }
}

impl View for CommandDispatchSetup {
    type V = CommandDispatchSetupView;

    closed spec fn view(&self) -> CommandDispatchSetupView {
        CommandDispatchSetupView {
            compute_pipeline: *self.compute_pipeline,
            workgroup_count: self.workgroup_count,
            push_constants: images(self.push_constants@),
            stage: self.stage,
            command_buffer: self.command_buffer,
            fence: self.fence,
        }
    }
}

impl CommandDispatchSetup {
    #[verifier::type_invariant]
    spec fn inv(self) -> bool {
        spec_push_constants_fit(self.push_constants@, self.compute_pipeline.push_constant_size)
    }

    /// The commands of the work.
    fn record(&self) -> (commands: Vec<Command>)
        ensures
            dispatch_recording(
                commands@,
                self@.compute_pipeline.handle,
                self@.compute_pipeline.layout,
                push_constant_range(self@.compute_pipeline.push_constant_size),
                self@.compute_pipeline.descriptor_set,
                self@.compute_pipeline.staging_buffer@.device_buffer_memory.buffer,
                self@.workgroup_count,
                self@.push_constants,
            ),
    {
        proof {
            use_type_invariant(self);
        }
        let pipeline = &self.compute_pipeline;
        let buffer = pipeline.staging_buffer.device_buffer_memory().buffer();
        let mut commands: Vec<Command> = Vec::new();
        commands.push(
            Command::PipelineBarrier {
                src_stage_mask: VkPipelineStageFlagBits::VK_PIPELINE_STAGE_HOST_BIT.bits(),
                dst_stage_mask: VkPipelineStageFlagBits::VK_PIPELINE_STAGE_COMPUTE_SHADER_BIT.bits(),
                dependency_flags: VK_FLAGS_NONE,
                buffer_barrier: VkBufferMemoryBarrier::new(
                    VkAccessFlagBits::VK_ACCESS_HOST_WRITE_BIT.bits(),
                    VkAccessFlagBits::VK_ACCESS_SHADER_READ_BIT.bits(),
                    buffer,
                    0,
                    VK_WHOLE_SIZE,
                ),
            },
        );
        if self.push_constants.len() > 0 {
            let data = pack(&self.push_constants);
            proof {
                lemma_concat_len(images(self.push_constants@));
            }
            commands.push(
                Command::PushConstants {
                    layout: pipeline.layout,
                    stage_flags: VkShaderStageFlagBits::VK_SHADER_STAGE_COMPUTE_BIT.bits(),
                    offset: 0,
                    data,
                },
            );
        }
        commands.push(
            Command::BindPipeline {
                bind_point: VkPipelineBindPoint::VK_PIPELINE_BIND_POINT_COMPUTE,
                pipeline: pipeline.handle,
            },
        );
        commands.push(
            Command::BindDescriptorSets {
                bind_point: VkPipelineBindPoint::VK_PIPELINE_BIND_POINT_COMPUTE,
                layout: pipeline.layout,
                first_set: 0,
                descriptor_set: pipeline.descriptor_set,
            },
        );
        commands.push(
            Command::Dispatch {
                x: self.workgroup_count.x,
                y: self.workgroup_count.y,
                z: self.workgroup_count.z,
            },
        );
        commands.push(
            Command::PipelineBarrier {
                src_stage_mask: VkPipelineStageFlagBits::VK_PIPELINE_STAGE_COMPUTE_SHADER_BIT.bits(),
                dst_stage_mask: VkPipelineStageFlagBits::VK_PIPELINE_STAGE_TRANSFER_BIT.bits()
                    | VkPipelineStageFlagBits::VK_PIPELINE_STAGE_COMPUTE_SHADER_BIT.bits(),
                dependency_flags: VK_FLAGS_NONE,
                buffer_barrier: VkBufferMemoryBarrier::new(
                    VkAccessFlagBits::VK_ACCESS_SHADER_WRITE_BIT.bits(),
                    VkAccessFlagBits::VK_ACCESS_TRANSFER_READ_BIT.bits()
                        | VkAccessFlagBits::VK_ACCESS_SHADER_READ_BIT.bits(),
                    buffer,
                    0,
                    VK_WHOLE_SIZE,
                ),
            },
        );
        commands
    }

    /// The call to make now.
    pub fn call(&self) -> (c: Option<Call>)
        ensures
            self@.calls(c),
    {
        let command_pool = self.compute_pipeline.staging_buffer.command_pool();
        let device = command_pool.device().handle();
        match self.stage {
            DispatchStage::AllocateCommandBuffer => Some(
                Call::AllocateCommandBuffers {
                    device,
                    info: VkCommandBufferAllocateInfo::new(
                        command_pool.handle(),
                        VkCommandBufferLevel::VK_COMMAND_BUFFER_LEVEL_PRIMARY,
                        1,
                    ),
                },
            ),
            DispatchStage::CreateFence => Some(
                Call::CreateFence {
                    device,
                    info: VkFenceCreateInfo::new(
                        VkFenceCreateFlagBits::VK_FENCE_CREATE_SIGNALED_BIT.bits(),
                    ),
                },
            ),
            DispatchStage::Record => Some(
                Call::Record {
                    command_buffer: self.command_buffer,
                    begin: VkCommandBufferBeginInfo::new(),
                    commands: self.record(),
                },
            ),
            _ => None,
        }
    }

    /// Takes the answer to the pending call.
    pub fn reply(self, reply: Reply) -> (next: Self)
        requires
            self@.awaits() == Some(reply.kind()),
        ensures
            next@ == self@.replied(reply),
    {
        proof {
            use_type_invariant(&self);
        }
        let mut command_buffer = self.command_buffer;
        let mut fence = self.fence;
        let stage = match (self.stage, reply) {
            (
                DispatchStage::AllocateCommandBuffer,
                Reply::Handle(VkResult::VK_SUCCESS, address),
            ) => {
                command_buffer = VkCommandBuffer::from_address(address);
                DispatchStage::CreateFence
            },
            (DispatchStage::CreateFence, Reply::Handle(VkResult::VK_SUCCESS, address)) => {
                fence = VkFence::from_address(address);
                DispatchStage::Record
            },
            (DispatchStage::Record, Reply::Status(VkResult::VK_SUCCESS)) => DispatchStage::Ready,
            (DispatchStage::Ready, _) => DispatchStage::Ready,
            (DispatchStage::Failed(status), _) => DispatchStage::Failed(status),
            (_, reply) => DispatchStage::Failed(reply.status()),
        };
        CommandDispatchSetup {
            compute_pipeline: self.compute_pipeline,
            workgroup_count: self.workgroup_count,
            push_constants: self.push_constants,
            stage,
            command_buffer,
            fence,
        }
    }

    /// The calls that give back what a failed making had acquired, the
    /// later acquired first.
    pub fn unwind(&self) -> (calls: Vec<Call>)
        ensures
            calls@ == self@.unwind_calls(),
    {
        let mut calls: Vec<Call> = Vec::new();
        match self.stage {
            DispatchStage::Failed(_) => {
                let command_pool = self.compute_pipeline.staging_buffer.command_pool();
                let device = command_pool.device().handle();
                if !self.fence.is_null() {
                    calls.push(Call::DestroyFence { device, fence: self.fence });
                }
                if !self.command_buffer.is_null() {
                    calls.push(
                        Call::FreeCommandBuffers {
                            device,
                            command_pool: command_pool.handle(),
                            command_buffer: self.command_buffer,
                        },
                    );
                }
            },
            _ => {},
        }
        assert(calls@ =~= self@.unwind_calls());
        calls
    }

    /// Whether the dispatch is made.
    pub fn is_ready(&self) -> (r: bool)
        ensures
            r == (self@.stage is Ready),
    {
        match self.stage {
            DispatchStage::Ready => true,
            _ => false,
        }
    }

    /// The dispatch with the handles acquired so far, which are all once
    /// the making has ended well.
    pub fn into_made(self) -> (made: CommandDispatch)
        ensures
            *made.compute_pipeline == self@.compute_pipeline,
            made.command_buffer == self@.command_buffer,
            made.fence == self@.fence,
    {
        CommandDispatch {
            compute_pipeline: self.compute_pipeline,
            command_buffer: self.command_buffer,
            fence: self.fence,
        }
    }

    /// The dispatch, once the making has ended, or the error of the status
    /// that the driver returned.
    pub fn finish(self) -> (r: Result<CommandDispatch, Error>)
        requires
            self@.awaits().is_none(),
        ensures
            match self@.stage {
                DispatchStage::Ready => {
                    &&& r matches Ok(made)
                    &&& *made.compute_pipeline == self@.compute_pipeline
                    &&& made.command_buffer == self@.command_buffer
                    &&& made.fence == self@.fence
                },
                DispatchStage::Failed(status) => r.is_err() && r.unwrap_err().spec_code()
                    == ErrorCode::VkResult(status),
                _ => false,
            },
    {
        match self.stage {
            DispatchStage::Failed(status) => Err(Error::new(ErrorCode::VkResult(status))),
            _ => Ok(
                CommandDispatch {
                    compute_pipeline: self.compute_pipeline,
                    command_buffer: self.command_buffer,
                    fence: self.fence,
                },
            ),
        }
    }
}

} // verus!
