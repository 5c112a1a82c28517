//! The run of a recorded command buffer on the queue.

use vstd::prelude::*;
use super::masks::STAGE_TRANSFER;
use crate::device::Device;
use crate::driver::{Call, Reply, ReplyKind};
use crate::error::{Error, ErrorCode};
use crate::vk::enums::{VkPipelineStageFlagBits, VkResult, VkStructureType};
use crate::vk::types::{VK_TRUE, VkCommandBuffer, VkFence, VkSubmitInfo};

verus! {

/// What a failed submission is reported as.
#[derive(Debug, Clone, Copy, PartialEq, Eq, Structural)]
pub enum SubmissionKind {
    /// A transfer between host and device: `TransferFailed`.
    Transfer,
    /// A dispatch of compute work: `DispatchFailed`.
    Dispatch,
}

/// How far a submission has come.
#[derive(Debug, Clone, Copy, PartialEq, Eq, Structural)]
pub enum SubmissionStage {
    /// The fence is being reset.
    Reset,
    /// The command buffer is being handed to the queue.
    Submit,
    /// The fence is being waited for.
    Wait,
    /// The work is done.
    Done,
    /// The driver returned this status, which is not success.
    Failed(VkResult),
}

/// One run of a recorded command buffer: its fence is reset, the buffer is
/// handed to the queue with that fence, and the fence is waited for
/// without a time limit.
#[derive(Debug, Clone, Copy, PartialEq, Eq)]
pub struct Submission {
    pub kind: SubmissionKind,
    pub device: Device,
    pub command_buffer: VkCommandBuffer,
    pub fence: VkFence,
    pub stage: SubmissionStage,
}

impl Submission {
    /// A run of `command_buffer` on the queue of `device`, guarded by
    /// `fence`, of which nothing has happened yet.
    pub open spec fn begin(
        kind: SubmissionKind,
        device: Device,
        command_buffer: VkCommandBuffer,
        fence: VkFence,
    ) -> Self {
        Submission { kind, device, command_buffer, fence, stage: SubmissionStage::Reset }
    }

    /// Begins a run of `command_buffer` on the queue of `device`, guarded
    /// by `fence`.
    pub fn new(
        kind: SubmissionKind,
        device: &Device,
        command_buffer: VkCommandBuffer,
        fence: VkFence,
    ) -> (r: Self)
        ensures
            r == Self::begin(kind, *device, command_buffer, fence),
    {
        Submission { kind, device: *device, command_buffer, fence, stage: SubmissionStage::Reset }
    }

    /// What a failure is reported as.
    pub open spec fn kind(&self) -> SubmissionKind {
        self.kind
    }

    /// The device whose queue runs the work.
    pub open spec fn device(&self) -> Device {
        self.device
    }

    /// The command buffer that is run.
    pub open spec fn command_buffer(&self) -> VkCommandBuffer {
        self.command_buffer
    }

    /// The fence that guards the run.
    pub open spec fn fence(&self) -> VkFence {
        self.fence
    }

    /// How far the submission has come.
    pub open spec fn stage(&self) -> SubmissionStage {
        self.stage
    }

    /// The call that is pending, if the submission has not ended.
    pub open spec fn pending(&self) -> Option<Call> {
        let device = self.device().handle();
        match self.stage() {
            SubmissionStage::Reset => Some(Call::ResetFences { device, fence: self.fence() }),
            SubmissionStage::Submit => Some(
                Call::QueueSubmit {
                    queue: self.device().queue().handle(),
                    submit: VkSubmitInfo {
                        sType: VkStructureType::VK_STRUCTURE_TYPE_SUBMIT_INFO,
                        waitSemaphoreCount: 0,
                        waitDstStageMask: Some(STAGE_TRANSFER),
                        commandBufferCount: 1,
                        commandBuffer: self.command_buffer(),
                        signalSemaphoreCount: 0,
                    },
                    fence: self.fence(),
                },
            ),
            SubmissionStage::Wait => Some(
                Call::WaitForFences {
                    device,
                    fence: self.fence(),
                    wait_all: VK_TRUE,
                    timeout: u64::MAX,
                },
            ),
            _ => None,
        }
    }

    /// The shape of the reply that is waited for; none once the
    /// submission has ended.
    pub open spec fn awaits(&self) -> Option<ReplyKind> {
        match self.stage() {
            SubmissionStage::Reset | SubmissionStage::Submit | SubmissionStage::Wait => Some(
                ReplyKind::Status,
            ),
            _ => None,
        }
    }

    /// The call to make now.
    pub fn call(&self) -> (c: Option<Call>)
        ensures
            c == self.pending(),
    {
        let device = self.device.handle();
        match self.stage {
            SubmissionStage::Reset => Some(Call::ResetFences { device, fence: self.fence }),
            SubmissionStage::Submit => Some(
                Call::QueueSubmit {
                    queue: self.device.queue().handle(),
                    submit: VkSubmitInfo::with_command_buffer_wait(
                        self.command_buffer,
                        VkPipelineStageFlagBits::VK_PIPELINE_STAGE_TRANSFER_BIT.bits(),
                    ),
                    fence: self.fence,
                },
            ),
            SubmissionStage::Wait => Some(
                Call::WaitForFences {
                    device,
                    fence: self.fence,
                    wait_all: VK_TRUE,
                    timeout: u64::MAX,
                },
            ),
            _ => None,
        }
    }

    /// Where the status `status` of the pending call leads: success to the
    /// next call, and after the wait to the end; any other status to
    /// failure with that status.
    pub open spec fn after(&self, status: VkResult) -> SubmissionStage {
        if status != VkResult::VK_SUCCESS {
            SubmissionStage::Failed(status)
        } else {
            match self.stage() {
                SubmissionStage::Reset => SubmissionStage::Submit,
                SubmissionStage::Submit => SubmissionStage::Wait,
                SubmissionStage::Wait => SubmissionStage::Done,
                stage => stage,
            }
        }
    }

    /// The submission after the answer `reply` to the pending call.
    pub open spec fn replied(self, reply: Reply) -> Self {
        Submission { stage: self.after(reply.status()), ..self }
    }

    /// Takes the answer to the pending call.
    pub fn reply(self, reply: Reply) -> (next: Self)
        requires
            self.awaits() == Some(reply.kind()),
        ensures
            next == self.replied(reply),
    {
        let stage = match reply.status() {
            VkResult::VK_SUCCESS => match self.stage {
                SubmissionStage::Reset => SubmissionStage::Submit,
                SubmissionStage::Submit => SubmissionStage::Wait,
                SubmissionStage::Wait => SubmissionStage::Done,
                stage => stage,
            },
            status => SubmissionStage::Failed(status),
        };
        Submission {
            kind: self.kind,
            device: self.device,
            command_buffer: self.command_buffer,
            fence: self.fence,
            stage,
        }
    }

    /// The error code that tells that a submission of kind `kind` failed
    /// with `status`.
    pub open spec fn failure(kind: SubmissionKind, status: VkResult) -> ErrorCode {
        match kind {
            SubmissionKind::Transfer => ErrorCode::TransferFailed(status),
            SubmissionKind::Dispatch => ErrorCode::DispatchFailed(status),
        }
    }

    /// The outcome, once the submission has ended: done, or failed with
    /// the status that the driver returned.
    pub fn finish(self) -> (r: Result<(), Error>)
        requires
            self.awaits().is_none(),
        ensures
            match self.stage() {
                SubmissionStage::Done => r.is_ok(),
                SubmissionStage::Failed(status) => r.is_err() && r.unwrap_err().spec_code()
                    == Self::failure(self.kind(), status),
                _ => false,
            },
    {
        match self.stage {
            SubmissionStage::Failed(status) => match self.kind {
                SubmissionKind::Transfer => Err(Error::new(ErrorCode::TransferFailed(status))),
                SubmissionKind::Dispatch => Err(Error::new(ErrorCode::DispatchFailed(status))),
            },
            _ => Ok(()),
        }
    }
}

} // verus!
