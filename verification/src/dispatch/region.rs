//! One region of a staging buffer: its making, its transfers, and the
//! access to its bytes.

use vstd::prelude::*;
use super::masks::{
    ACCESS_HOST_READ, ACCESS_TRANSFER_WRITE, FENCE_SIGNALED, STAGE_HOST, STAGE_TRANSFER,
};
use super::submission::{Submission, SubmissionKind, SubmissionStage};
use crate::device::{BufferMemory, CommandPool};
use crate::driver::{Call, Command, Reply, ReplyKind};
use crate::error::{Error, ErrorCode};
use crate::layout::offset;
use crate::vk::enums::{
    VkAccessFlagBits, VkCommandBufferLevel, VkFenceCreateFlagBits, VkPipelineStageFlagBits,
    VkResult, VkStructureType,
};
use crate::vk::types::{
    VK_FLAGS_NONE, VK_QUEUE_FAMILY_IGNORED, VkAccessFlags, VkBuffer, VkBufferCopy,
    VkBufferMemoryBarrier, VkCommandBuffer, VkCommandBufferAllocateInfo, VkCommandBufferBeginInfo,
    VkDeviceSize, VkFence, VkFenceCreateInfo, VkMappedMemoryRange,
};

verus! {

/// How the recording of a command buffer begins: it may be submitted any
/// number of times.
pub open spec fn begin_info() -> VkCommandBufferBeginInfo {
    VkCommandBufferBeginInfo {
        sType: VkStructureType::VK_STRUCTURE_TYPE_COMMAND_BUFFER_BEGIN_INFO,
        flags: 0,
    }
}

/// The request for one primary command buffer from `command_pool`.
pub open spec fn allocate_info(command_pool: CommandPool) -> VkCommandBufferAllocateInfo {
    VkCommandBufferAllocateInfo {
        sType: VkStructureType::VK_STRUCTURE_TYPE_COMMAND_BUFFER_ALLOCATE_INFO,
        commandPool: command_pool.handle,
        level: VkCommandBufferLevel::VK_COMMAND_BUFFER_LEVEL_PRIMARY,
        commandBufferCount: 1,
    }
}

/// The request for a fence that begins in the signaled state.
pub open spec fn fence_info() -> VkFenceCreateInfo {
    VkFenceCreateInfo {
        sType: VkStructureType::VK_STRUCTURE_TYPE_FENCE_CREATE_INFO,
        flags: FENCE_SIGNALED,
    }
}

/// A barrier on `size` bytes of `buffer` from `offset` on, without a
/// change of queue family.
pub open spec fn buffer_barrier(
    src_access_mask: VkAccessFlags,
    dst_access_mask: VkAccessFlags,
    buffer: VkBuffer,
    offset: VkDeviceSize,
    size: VkDeviceSize,
) -> VkBufferMemoryBarrier {
    VkBufferMemoryBarrier {
        sType: VkStructureType::VK_STRUCTURE_TYPE_BUFFER_MEMORY_BARRIER,
        srcAccessMask: src_access_mask,
        dstAccessMask: dst_access_mask,
        srcQueueFamilyIndex: VK_QUEUE_FAMILY_IGNORED,
        dstQueueFamilyIndex: VK_QUEUE_FAMILY_IGNORED,
        buffer,
        offset,
        size,
    }
}

/// One region of a staging buffer: a byte range of the host-visible and
/// of the device-local buffer, with a recorded upload and a recorded
/// download of that range, each guarded by a fence of its own.
#[derive(Debug, Clone, Copy, PartialEq, Eq)]
pub struct StagingBufferRegion {
    pub copy_region: VkBufferCopy,
    pub command_pool: CommandPool,
    pub host_buffer_memory: BufferMemory,
    pub device_buffer_memory: BufferMemory,
    pub host_to_device_command: VkCommandBuffer,
    pub device_to_host_command: VkCommandBuffer,
    pub host_to_device_fence: VkFence,
    pub device_to_host_fence: VkFence,
    /// The address at which the host-visible buffer is mapped.
    pub mapped: usize,
}

impl StagingBufferRegion {
    /// The region of `size` bytes at `offset`, for which nothing has been
    /// acquired yet.
    pub open spec fn blank(
        offset: VkDeviceSize,
        size: VkDeviceSize,
        command_pool: CommandPool,
        host_buffer_memory: BufferMemory,
        device_buffer_memory: BufferMemory,
        mapped: usize,
    ) -> Self {
        StagingBufferRegion {
            copy_region: VkBufferCopy { srcOffset: offset, dstOffset: offset, size },
            command_pool,
            host_buffer_memory,
            device_buffer_memory,
            host_to_device_command: VkCommandBuffer::at(0),
            device_to_host_command: VkCommandBuffer::at(0),
            host_to_device_fence: VkFence::at(0),
            device_to_host_fence: VkFence::at(0),
            mapped,
        }
    }

    /// Begins the making of the region of `size` bytes at `offset` of the
    /// two buffers, the first of which is mapped at `mapped`.
    pub fn new(
        offset: VkDeviceSize,
        size: VkDeviceSize,
        command_pool: &CommandPool,
        host_buffer_memory: &BufferMemory,
        device_buffer_memory: &BufferMemory,
        mapped: usize,
    ) -> (r: StagingBufferRegionSetup)
        ensures
            r == StagingBufferRegionSetup::begin(
                offset,
                size,
                *command_pool,
                *host_buffer_memory,
                *device_buffer_memory,
                mapped,
            ),
    {
        StagingBufferRegionSetup {
            region: StagingBufferRegion {
                copy_region: VkBufferCopy::new(offset, size),
                command_pool: *command_pool,
                host_buffer_memory: *host_buffer_memory,
                device_buffer_memory: *device_buffer_memory,
                host_to_device_command: VkCommandBuffer::null(),
                device_to_host_command: VkCommandBuffer::null(),
                host_to_device_fence: VkFence::null(),
                device_to_host_fence: VkFence::null(),
                mapped,
            },
            stage: RegionStage::AllocateUpload,
        }
    }

    pub open spec fn spec_offset(&self) -> VkDeviceSize {
        self.copy_region.srcOffset
    }

    /// Where the region begins in both buffers.
    #[verifier::when_used_as_spec(spec_offset)]
    pub fn offset(&self) -> (r: VkDeviceSize)
        ensures
            r == self.spec_offset(),
    {
        self.copy_region.srcOffset
    }

    pub open spec fn spec_size(&self) -> VkDeviceSize {
        self.copy_region.size
    }

    /// The number of bytes of the region.
    #[verifier::when_used_as_spec(spec_size)]
    pub fn size(&self) -> (r: VkDeviceSize)
        ensures
            r == self.spec_size(),
    {
        self.copy_region.size
    }

    pub open spec fn spec_copy_region(&self) -> VkBufferCopy {
        self.copy_region
    }

    /// The byte range that the transfers of the region copy.
    #[verifier::when_used_as_spec(spec_copy_region)]
    pub fn copy_region(&self) -> (r: VkBufferCopy)
        ensures
            r == self.spec_copy_region(),
    {
        self.copy_region
    }

    /// How many items of `item_size` bytes lie whole in the region.
    pub fn slice_len(&self, item_size: usize) -> (r: VkDeviceSize)
        requires
            item_size > 0,
        ensures
            r == self.size() as int / item_size as int,
            r * item_size <= self.size(),
    {
        let r = self.copy_region.size / (item_size as u64);
        assert(r * item_size <= self.size()) by (nonlinear_arith)
            requires
                r == self.size() as int / item_size as int,
                item_size > 0,
        ;
        r
    }

    /// The recording of the upload: one copy of the region's range from
    /// the host-visible buffer to the device-local buffer.
    pub open spec fn upload_commands(&self) -> Seq<Command> {
        seq![
            Command::CopyBuffer {
                src: self.host_buffer_memory.buffer,
                dst: self.device_buffer_memory.buffer,
                region: self.copy_region,
            },
        ]
    }

    /// The recording of the download: one copy of the region's range from
    /// the device-local buffer to the host-visible buffer, and behind it a
    /// barrier on that range of the host-visible buffer, which orders the
    /// writes of the transfer before the reads of the host.
    pub open spec fn download_commands(&self) -> Seq<Command> {
        seq![
            Command::CopyBuffer {
                src: self.device_buffer_memory.buffer,
                dst: self.host_buffer_memory.buffer,
                region: self.copy_region,
            },
            Command::PipelineBarrier {
                src_stage_mask: STAGE_TRANSFER,
                dst_stage_mask: STAGE_HOST,
                dependency_flags: VK_FLAGS_NONE,
                buffer_barrier: buffer_barrier(
                    ACCESS_TRANSFER_WRITE,
                    ACCESS_HOST_READ,
                    self.host_buffer_memory.buffer,
                    self.copy_region.srcOffset,
                    self.copy_region.size,
                ),
            },
        ]
    }

    /// The commands of the upload.
    pub fn record_upload(&self) -> (commands: Vec<Command>)
        ensures
            commands@ == self.upload_commands(),
    {
        let mut commands: Vec<Command> = Vec::new();
        commands.push(
            Command::CopyBuffer {
                src: self.host_buffer_memory.buffer(),
                dst: self.device_buffer_memory.buffer(),
                region: self.copy_region,
            },
        );
        assert(commands@ =~= self.upload_commands());
        commands
    }

    /// The commands of the download.
    pub fn record_download(&self) -> (commands: Vec<Command>)
        ensures
            commands@ == self.download_commands(),
    {
        let mut commands: Vec<Command> = Vec::new();
        commands.push(
            Command::CopyBuffer {
                src: self.device_buffer_memory.buffer(),
                dst: self.host_buffer_memory.buffer(),
                region: self.copy_region,
            },
        );
        commands.push(
            Command::PipelineBarrier {
                src_stage_mask: VkPipelineStageFlagBits::VK_PIPELINE_STAGE_TRANSFER_BIT.bits(),
                dst_stage_mask: VkPipelineStageFlagBits::VK_PIPELINE_STAGE_HOST_BIT.bits(),
                dependency_flags: VK_FLAGS_NONE,
                buffer_barrier: VkBufferMemoryBarrier::new(
                    VkAccessFlagBits::VK_ACCESS_TRANSFER_WRITE_BIT.bits(),
                    VkAccessFlagBits::VK_ACCESS_HOST_READ_BIT.bits(),
                    self.host_buffer_memory.buffer(),
                    self.offset(),
                    self.size(),
                ),
            },
        );
        assert(commands@ =~= self.download_commands());
        commands
    }

    /// Begins a run of the recorded upload.
    pub fn transfer_host_to_device(&self) -> (r: Submission)
        ensures
            r == Submission::begin(
                SubmissionKind::Transfer,
                self.command_pool.device,
                self.host_to_device_command,
                self.host_to_device_fence,
            ),
    {
        Submission::new(
            SubmissionKind::Transfer,
            self.command_pool.device(),
            self.host_to_device_command,
            self.host_to_device_fence,
        )
    }

    /// Begins a run of the recorded download.
    pub fn transfer_device_to_host(&self) -> (r: Submission)
        ensures
            r == Submission::begin(
                SubmissionKind::Transfer,
                self.command_pool.device,
                self.device_to_host_command,
                self.device_to_host_fence,
            ),
    {
        Submission::new(
            SubmissionKind::Transfer,
            self.command_pool.device(),
            self.device_to_host_command,
            self.device_to_host_fence,
        )
    }

    /// The region's range of the mapped memory.
    pub open spec fn mapped_range(&self) -> VkMappedMemoryRange {
        VkMappedMemoryRange {
            sType: VkStructureType::VK_STRUCTURE_TYPE_MAPPED_MEMORY_RANGE,
            memory: self.host_buffer_memory.memory,
            offset: self.copy_region.srcOffset,
            size: self.copy_region.size,
        }
    }

    /// The call that makes the device's writes to the region's range of
    /// the mapped memory visible to the host.
    pub fn invalidate_mapped_memory_range(&self) -> (c: Call)
        ensures
            c == (Call::InvalidateMappedMemoryRanges {
                device: self.host_buffer_memory.device.handle(),
                range: self.mapped_range(),
            }),
    {
        Call::InvalidateMappedMemoryRanges {
            device: self.host_buffer_memory.device().handle(),
            range: VkMappedMemoryRange::new(
                self.host_buffer_memory.memory(),
                self.offset(),
                self.size(),
            ),
        }
    }

    /// The call that makes the host's writes to the region's range of the
    /// mapped memory visible to the device.
    pub fn flush_mapped_memory_range(&self) -> (c: Call)
        ensures
            c == (Call::FlushMappedMemoryRanges {
                device: self.host_buffer_memory.device.handle(),
                range: self.mapped_range(),
            }),
    {
        Call::FlushMappedMemoryRanges {
            device: self.host_buffer_memory.device().handle(),
            range: VkMappedMemoryRange::new(
                self.host_buffer_memory.memory(),
                self.offset(),
                self.size(),
            ),
        }
    }

    /// Whether the region has been released, or nothing was acquired for it.
    pub open spec fn released(&self) -> bool {
        &&& self.host_to_device_fence.address == 0
        &&& self.device_to_host_fence.address == 0
        &&& self.host_to_device_command.address == 0
        &&& self.device_to_host_command.address == 0
    }

    /// The calls that give the region's fences and command buffers back:
    /// the fence of the upload and that of the download are destroyed,
    /// then the command buffer of the upload and that of the download are
    /// freed. None where the region has been released before.
    pub open spec fn release_calls(&self) -> Seq<Call> {
        let device = self.command_pool.device.handle();
        let command_pool = self.command_pool.handle;
        if self.released() {
            seq![]
        } else {
            seq![
                Call::DestroyFence { device, fence: self.host_to_device_fence },
                Call::DestroyFence { device, fence: self.device_to_host_fence },
                Call::FreeCommandBuffers {
                    device,
                    command_pool,
                    command_buffer: self.host_to_device_command,
                },
                Call::FreeCommandBuffers {
                    device,
                    command_pool,
                    command_buffer: self.device_to_host_command,
                },
            ]
        }
    }

    /// Whether the region has been released, or nothing was acquired for it.
    pub fn is_released(&self) -> (r: bool)
        ensures
            r == self.released(),
    {
        self.host_to_device_fence.is_null() && self.device_to_host_fence.is_null()
            && self.host_to_device_command.is_null() && self.device_to_host_command.is_null()
    }

    /// Releases the region: says which calls give its fences and command
    /// buffers back, and forgets their handles.
    pub fn release(&mut self) -> (calls: Vec<Call>)
        ensures
            calls@ == old(self).release_calls(),
            final(self).released(),
            *final(self) == (StagingBufferRegion {
                host_to_device_command: VkCommandBuffer::at(0),
                device_to_host_command: VkCommandBuffer::at(0),
                host_to_device_fence: VkFence::at(0),
                device_to_host_fence: VkFence::at(0),
                ..*old(self)
            }),
    {
        let mut calls: Vec<Call> = Vec::new();
        if !self.is_released() {
            let device = self.command_pool.device().handle();
            let command_pool = self.command_pool.handle();
            calls.push(Call::DestroyFence { device, fence: self.host_to_device_fence });
            calls.push(Call::DestroyFence { device, fence: self.device_to_host_fence });
            calls.push(
                Call::FreeCommandBuffers {
                    device,
                    command_pool,
                    command_buffer: self.host_to_device_command,
                },
            );
            calls.push(
                Call::FreeCommandBuffers {
                    device,
                    command_pool,
                    command_buffer: self.device_to_host_command,
                },
            );
        }
        self.host_to_device_command = VkCommandBuffer::null();
        self.device_to_host_command = VkCommandBuffer::null();
        self.host_to_device_fence = VkFence::null();
        self.device_to_host_fence = VkFence::null();
        assert(calls@ =~= old(self).release_calls());
        calls
    }

    /// The calls that give back what was acquired for the region, the
    /// later acquired first: the fence and then the command buffer of the
    /// download, the fence and then the command buffer of the upload; each
    /// only where it was acquired.
    pub open spec fn unwind_calls(&self) -> Seq<Call> {
        let device = self.command_pool.device.handle();
        let command_pool = self.command_pool.handle;
        let download_fence = if self.device_to_host_fence.address == 0 {
            seq![]
        } else {
            seq![Call::DestroyFence { device, fence: self.device_to_host_fence }]
        };
        let download_command = if self.device_to_host_command.address == 0 {
            seq![]
        } else {
            seq![
                Call::FreeCommandBuffers {
                    device,
                    command_pool,
                    command_buffer: self.device_to_host_command,
                },
            ]
        };
        let upload_fence = if self.host_to_device_fence.address == 0 {
            seq![]
        } else {
            seq![Call::DestroyFence { device, fence: self.host_to_device_fence }]
        };
        let upload_command = if self.host_to_device_command.address == 0 {
            seq![]
        } else {
            seq![
                Call::FreeCommandBuffers {
                    device,
                    command_pool,
                    command_buffer: self.host_to_device_command,
                },
            ]
        };
        download_fence + download_command + upload_fence + upload_command
    }

    /// The calls that give back what was acquired for the region, the
    /// later acquired first.
    pub fn unwind(&self) -> (calls: Vec<Call>)
        ensures
            calls@ == self.unwind_calls(),
    {
        let device = self.command_pool.device().handle();
        let command_pool = self.command_pool.handle();
        let mut calls: Vec<Call> = Vec::new();
        if !self.device_to_host_fence.is_null() {
            calls.push(Call::DestroyFence { device, fence: self.device_to_host_fence });
        }
        if !self.device_to_host_command.is_null() {
            calls.push(
                Call::FreeCommandBuffers {
                    device,
                    command_pool,
                    command_buffer: self.device_to_host_command,
                },
            );
        }
        if !self.host_to_device_fence.is_null() {
            calls.push(Call::DestroyFence { device, fence: self.host_to_device_fence });
        }
        if !self.host_to_device_command.is_null() {
            calls.push(
                Call::FreeCommandBuffers {
                    device,
                    command_pool,
                    command_buffer: self.host_to_device_command,
                },
            );
        }
        assert(calls@ =~= self.unwind_calls());
        calls
    }
}

/// How far the making of a region has come.
#[derive(Debug, Clone, Copy, PartialEq, Eq, Structural)]
pub enum RegionStage {
    /// The command buffer of the upload is being allocated.
    AllocateUpload,
    /// The fence of the upload is being created.
    UploadFence,
    /// The command buffer of the download is being allocated.
    AllocateDownload,
    /// The fence of the download is being created.
    DownloadFence,
    /// The upload is being recorded.
    RecordUpload,
    /// The download is being recorded.
    RecordDownload,
    /// The region is made.
    Ready,
    /// The driver returned this status, which is not success.
    Failed(VkResult),
}

/// The making of a [`StagingBufferRegion`].
#[derive(Debug, Clone, Copy, PartialEq, Eq)]
pub struct StagingBufferRegionSetup {
    /// The region as far as it is made: a handle is null until the driver
    /// has given it.
    pub region: StagingBufferRegion,
    pub stage: RegionStage,
}

impl StagingBufferRegionSetup {
    /// The making of the region of `size` bytes at `offset`, of which
    /// nothing has happened yet.
    pub open spec fn begin(
        offset: VkDeviceSize,
        size: VkDeviceSize,
        command_pool: CommandPool,
        host_buffer_memory: BufferMemory,
        device_buffer_memory: BufferMemory,
        mapped: usize,
    ) -> Self {
        StagingBufferRegionSetup {
            region: StagingBufferRegion::blank(
                offset,
                size,
                command_pool,
                host_buffer_memory,
                device_buffer_memory,
                mapped,
            ),
            stage: RegionStage::AllocateUpload,
        }
    }

    /// The shape of the reply that is waited for; none once the making has
    /// ended.
    pub open spec fn awaits(&self) -> Option<ReplyKind> {
        match self.stage {
            RegionStage::AllocateUpload
            | RegionStage::UploadFence
            | RegionStage::AllocateDownload
            | RegionStage::DownloadFence => Some(ReplyKind::Handle),
            RegionStage::RecordUpload | RegionStage::RecordDownload => Some(ReplyKind::Status),
            _ => None,
        }
    }

    /// Whether `c` is the call to make now.
    ///
    /// In order: a primary command buffer and a signaled fence are
    /// acquired for the upload, then for the download; the upload is
    /// recorded, then the download.
    pub open spec fn calls(&self, c: Option<Call>) -> bool {
        match self.stage {
            RegionStage::AllocateUpload | RegionStage::AllocateDownload => c == Some(
                Call::AllocateCommandBuffers {
                    device: self.region.command_pool.device.handle(),
                    info: allocate_info(self.region.command_pool),
                },
            ),
            RegionStage::UploadFence | RegionStage::DownloadFence => c == Some(
                Call::CreateFence {
                    device: self.region.command_pool.device.handle(),
                    info: fence_info(),
                },
            ),
            RegionStage::RecordUpload => c matches Some(
                Call::Record { command_buffer, begin, commands },
            ) && command_buffer == self.region.host_to_device_command && begin == begin_info()
                && commands@ == self.region.upload_commands(),
            RegionStage::RecordDownload => c matches Some(
                Call::Record { command_buffer, begin, commands },
            ) && command_buffer == self.region.device_to_host_command && begin == begin_info()
                && commands@ == self.region.download_commands(),
            _ => c.is_none(),
        }
    }

    /// The call to make now.
    pub fn call(&self) -> (c: Option<Call>)
        ensures
            self.calls(c),
    {
        let device = self.region.command_pool.device().handle();
        match self.stage {
            RegionStage::AllocateUpload | RegionStage::AllocateDownload => Some(
                Call::AllocateCommandBuffers {
                    device,
                    info: VkCommandBufferAllocateInfo::new(
                        self.region.command_pool.handle(),
                        VkCommandBufferLevel::VK_COMMAND_BUFFER_LEVEL_PRIMARY,
                        1,
                    ),
                },
            ),
            RegionStage::UploadFence | RegionStage::DownloadFence => Some(
                Call::CreateFence {
                    device,
                    info: VkFenceCreateInfo::new(
                        VkFenceCreateFlagBits::VK_FENCE_CREATE_SIGNALED_BIT.bits(),
                    ),
                },
            ),
            RegionStage::RecordUpload => Some(
                Call::Record {
                    command_buffer: self.region.host_to_device_command,
                    begin: VkCommandBufferBeginInfo::new(),
                    commands: self.region.record_upload(),
                },
            ),
            RegionStage::RecordDownload => Some(
                Call::Record {
                    command_buffer: self.region.device_to_host_command,
                    begin: VkCommandBufferBeginInfo::new(),
                    commands: self.region.record_download(),
                },
            ),
            _ => None,
        }
    }

    /// The making after the answer `reply` to the pending call: with the
    /// handle that came with success, one step further; with any other
    /// status, failed with that status.
    pub open spec fn replied(self, reply: Reply) -> Self {
        let region = self.region;
        match (self.stage, reply) {
            (RegionStage::AllocateUpload, Reply::Handle(VkResult::VK_SUCCESS, address)) => {
                StagingBufferRegionSetup {
                    region: StagingBufferRegion {
                        host_to_device_command: VkCommandBuffer::at(address),
                        ..region
                    },
                    stage: RegionStage::UploadFence,
                }
            },
            (RegionStage::UploadFence, Reply::Handle(VkResult::VK_SUCCESS, address)) => {
                StagingBufferRegionSetup {
                    region: StagingBufferRegion {
                        host_to_device_fence: VkFence::at(address),
                        ..region
                    },
                    stage: RegionStage::AllocateDownload,
                }
            },
            (RegionStage::AllocateDownload, Reply::Handle(VkResult::VK_SUCCESS, address)) => {
                StagingBufferRegionSetup {
                    region: StagingBufferRegion {
                        device_to_host_command: VkCommandBuffer::at(address),
                        ..region
                    },
                    stage: RegionStage::DownloadFence,
                }
            },
            (RegionStage::DownloadFence, Reply::Handle(VkResult::VK_SUCCESS, address)) => {
                StagingBufferRegionSetup {
                    region: StagingBufferRegion {
                        device_to_host_fence: VkFence::at(address),
                        ..region
                    },
                    stage: RegionStage::RecordUpload,
                }
            },
            (RegionStage::RecordUpload, Reply::Status(VkResult::VK_SUCCESS)) => {
                StagingBufferRegionSetup { region, stage: RegionStage::RecordDownload }
            },
            (RegionStage::RecordDownload, Reply::Status(VkResult::VK_SUCCESS)) => {
                StagingBufferRegionSetup { region, stage: RegionStage::Ready }
            },
            (RegionStage::Ready, _) | (RegionStage::Failed(_), _) => self,
            (_, reply) => StagingBufferRegionSetup {
                region,
                stage: RegionStage::Failed(reply.status()),
            },
        }
    }

    /// Takes the answer to the pending call.
    pub fn reply(self, reply: Reply) -> (next: Self)
        requires
            self.awaits() == Some(reply.kind()),
        ensures
            next == self.replied(reply),
    {
        let mut region = self.region;
        let stage = match (self.stage, reply) {
            (RegionStage::AllocateUpload, Reply::Handle(VkResult::VK_SUCCESS, address)) => {
                region.host_to_device_command = VkCommandBuffer::from_address(address);
                RegionStage::UploadFence
            },
            (RegionStage::UploadFence, Reply::Handle(VkResult::VK_SUCCESS, address)) => {
                region.host_to_device_fence = VkFence::from_address(address);
                RegionStage::AllocateDownload
            },
            (RegionStage::AllocateDownload, Reply::Handle(VkResult::VK_SUCCESS, address)) => {
                region.device_to_host_command = VkCommandBuffer::from_address(address);
                RegionStage::DownloadFence
            },
            (RegionStage::DownloadFence, Reply::Handle(VkResult::VK_SUCCESS, address)) => {
                region.device_to_host_fence = VkFence::from_address(address);
                RegionStage::RecordUpload
            },
            (RegionStage::RecordUpload, Reply::Status(VkResult::VK_SUCCESS)) => {
                RegionStage::RecordDownload
            },
            (RegionStage::RecordDownload, Reply::Status(VkResult::VK_SUCCESS)) => {
                RegionStage::Ready
            },
            (RegionStage::Ready, _) => RegionStage::Ready,
            (RegionStage::Failed(status), _) => RegionStage::Failed(status),
            (_, reply) => RegionStage::Failed(reply.status()),
        };
        StagingBufferRegionSetup { region, stage }
    }

    /// The calls that give back what a failed making had acquired, the
    /// later acquired first. None unless the making has failed.
    pub open spec fn unwind_calls(&self) -> Seq<Call> {
        if self.stage is Failed {
            self.region.unwind_calls()
        } else {
            seq![]
        }
    }

    /// The calls that give back what a failed making had acquired.
    pub fn unwind(&self) -> (calls: Vec<Call>)
        ensures
            calls@ == self.unwind_calls(),
    {
        match self.stage {
            RegionStage::Failed(_) => self.region.unwind(),
            _ => Vec::new(),
        }
    }

    /// The region, once the making has ended, or the error of the status
    /// that the driver returned.
    pub fn finish(self) -> (r: Result<StagingBufferRegion, Error>)
        requires
            self.awaits().is_none(),
        ensures
            match self.stage {
                RegionStage::Ready => r == Ok::<StagingBufferRegion, Error>(self.region),
                RegionStage::Failed(status) => r.is_err() && r.unwrap_err().spec_code()
                    == ErrorCode::VkResult(status),
                _ => false,
            },
    {
        match self.stage {
            RegionStage::Failed(status) => Err(Error::new(ErrorCode::VkResult(status))),
            _ => Ok(self.region),
        }
    }
}

/// How far an access to a region has come.
#[derive(Debug, Clone, Copy, PartialEq, Eq)]
pub enum AccessStage {
    /// The caller is writing the region's bytes in the mapped memory.
    Write,
    /// The written range is being flushed.
    Flush,
    /// The upload is running.
    Upload(Submission),
    /// The download is running.
    Download(Submission),
    /// The downloaded range is being invalidated.
    Invalidate,
    /// The caller is reading the region's bytes in the mapped memory.
    Read,
    /// The access is done.
    Done,
    /// The driver returned this status, which is not success.
    Failed(VkResult),
}

/// One access to a region through the mapped memory.
///
/// A write lets the caller write the bytes, flushes the region's range,
/// and runs the upload. A read runs the download, invalidates the region's
/// range, and lets the caller read the bytes. After a failure the caller
/// is let do nothing more.
#[derive(Debug, Clone, Copy, PartialEq, Eq)]
pub struct RegionAccess {
    pub region: StagingBufferRegion,
    /// How many bytes from the region's offset on the caller may touch.
    pub span: VkDeviceSize,
    pub stage: AccessStage,
}

impl RegionAccess {
    /// The write of the first `span` bytes of `region`, of which nothing
    /// has happened yet.
    pub open spec fn begin_write(region: StagingBufferRegion, span: VkDeviceSize) -> Self {
        RegionAccess { region, span, stage: AccessStage::Write }
    }

    /// The read of the first `span` bytes of `region`, of which nothing
    /// has happened yet.
    pub open spec fn begin_read(region: StagingBufferRegion, span: VkDeviceSize) -> Self {
        RegionAccess {
            region,
            span,
            stage: AccessStage::Download(
                Submission::begin(
                    SubmissionKind::Transfer,
                    region.command_pool.device,
                    region.device_to_host_command,
                    region.device_to_host_fence,
                ),
            ),
        }
    }

    /// Begins the write of the first `span` bytes of `region`.
    pub fn write(region: &StagingBufferRegion, span: VkDeviceSize) -> (r: Self)
        ensures
            r == Self::begin_write(*region, span),
    {
        RegionAccess { region: *region, span, stage: AccessStage::Write }
    }

    /// Begins the read of the first `span` bytes of `region`.
    pub fn read(region: &StagingBufferRegion, span: VkDeviceSize) -> (r: Self)
        ensures
            r == Self::begin_read(*region, span),
    {
        RegionAccess {
            region: *region,
            span,
            stage: AccessStage::Download(region.transfer_device_to_host()),
        }
    }

    /// The call that is pending, if the access has not ended.
    pub open spec fn pending(&self) -> Option<Call> {
        match self.stage {
            AccessStage::Write => Some(
                Call::WriteMapped {
                    mapped: self.region.mapped,
                    offset: self.region.copy_region.srcOffset,
                    size: self.span,
                },
            ),
            AccessStage::Flush => Some(
                Call::FlushMappedMemoryRanges {
                    device: self.region.host_buffer_memory.device.handle(),
                    range: self.region.mapped_range(),
                },
            ),
            AccessStage::Upload(submission) => submission.pending(),
            AccessStage::Download(submission) => submission.pending(),
            AccessStage::Invalidate => Some(
                Call::InvalidateMappedMemoryRanges {
                    device: self.region.host_buffer_memory.device.handle(),
                    range: self.region.mapped_range(),
                },
            ),
            AccessStage::Read => Some(
                Call::ReadMapped {
                    mapped: self.region.mapped,
                    offset: self.region.copy_region.srcOffset,
                    size: self.span,
                },
            ),
            _ => None,
        }
    }

    /// The shape of the reply that is waited for; none once the access
    /// has ended.
    pub open spec fn awaits(&self) -> Option<ReplyKind> {
        match self.stage {
            AccessStage::Write | AccessStage::Read => Some(ReplyKind::Done),
            AccessStage::Flush | AccessStage::Invalidate => Some(ReplyKind::Status),
            AccessStage::Upload(submission) => submission.awaits(),
            AccessStage::Download(submission) => submission.awaits(),
            _ => None,
        }
    }

    /// The call to make now.
    pub fn call(&self) -> (c: Option<Call>)
        ensures
            c == self.pending(),
    {
        match self.stage {
            AccessStage::Write => Some(
                Call::WriteMapped {
                    mapped: self.region.mapped,
                    offset: self.region.offset(),
                    size: self.span,
                },
            ),
            AccessStage::Flush => Some(self.region.flush_mapped_memory_range()),
            AccessStage::Upload(submission) => submission.call(),
            AccessStage::Download(submission) => submission.call(),
            AccessStage::Invalidate => Some(self.region.invalidate_mapped_memory_range()),
            AccessStage::Read => Some(
                Call::ReadMapped {
                    mapped: self.region.mapped,
                    offset: self.region.offset(),
                    size: self.span,
                },
            ),
            _ => None,
        }
    }

    /// The stage after the answer `reply` to the pending call.
    pub open spec fn after(&self, reply: Reply) -> AccessStage {
        match self.stage {
            AccessStage::Write => AccessStage::Flush,
            AccessStage::Flush => if reply.status() == VkResult::VK_SUCCESS {
                AccessStage::Upload(
                    Submission::begin(
                        SubmissionKind::Transfer,
                        self.region.command_pool.device,
                        self.region.host_to_device_command,
                        self.region.host_to_device_fence,
                    ),
                )
            } else {
                AccessStage::Failed(reply.status())
            },
            AccessStage::Upload(submission) => match submission.replied(reply).stage {
                SubmissionStage::Done => AccessStage::Done,
                SubmissionStage::Failed(status) => AccessStage::Failed(status),
                _ => AccessStage::Upload(submission.replied(reply)),
            },
            AccessStage::Download(submission) => match submission.replied(reply).stage {
                SubmissionStage::Done => AccessStage::Invalidate,
                SubmissionStage::Failed(status) => AccessStage::Failed(status),
                _ => AccessStage::Download(submission.replied(reply)),
            },
            AccessStage::Invalidate => if reply.status() == VkResult::VK_SUCCESS {
                AccessStage::Read
            } else {
                AccessStage::Failed(reply.status())
            },
            AccessStage::Read => AccessStage::Done,
            stage => stage,
        }
    }

    /// The access after the answer `reply` to the pending call.
    pub open spec fn replied(self, reply: Reply) -> Self {
        RegionAccess { stage: self.after(reply), ..self }
    }

    /// Takes the answer to the pending call.
    pub fn reply(self, reply: Reply) -> (next: Self)
        requires
            self.awaits() == Some(reply.kind()),
        ensures
            next == self.replied(reply),
    {
        let stage = match self.stage {
            AccessStage::Write => AccessStage::Flush,
            AccessStage::Flush => match reply.status() {
                VkResult::VK_SUCCESS => AccessStage::Upload(self.region.transfer_host_to_device()),
                status => AccessStage::Failed(status),
            },
            AccessStage::Upload(submission) => {
                let next = submission.reply(reply);
                match next.stage {
                    SubmissionStage::Done => AccessStage::Done,
                    SubmissionStage::Failed(status) => AccessStage::Failed(status),
                    _ => AccessStage::Upload(next),
                }
            },
            AccessStage::Download(submission) => {
                let next = submission.reply(reply);
                match next.stage {
                    SubmissionStage::Done => AccessStage::Invalidate,
                    SubmissionStage::Failed(status) => AccessStage::Failed(status),
                    _ => AccessStage::Download(next),
                }
            },
            AccessStage::Invalidate => match reply.status() {
                VkResult::VK_SUCCESS => AccessStage::Read,
                status => AccessStage::Failed(status),
            },
            AccessStage::Read => AccessStage::Done,
            stage => stage,
        };
        RegionAccess { region: self.region, span: self.span, stage }
    }

    /// The outcome, once the access has ended: done, or `TransferFailed`
    /// with the status that the driver returned.
    pub fn finish(self) -> (r: Result<(), Error>)
        requires
            self.awaits().is_none(),
        ensures
            match self.stage {
                AccessStage::Failed(status) => r.is_err() && r.unwrap_err().spec_code()
                    == ErrorCode::TransferFailed(status),
                _ => r.is_ok(),
            },
    {
        match self.stage {
            AccessStage::Failed(status) => Err(Error::new(ErrorCode::TransferFailed(status))),
            _ => Ok(()),
        }
    }
}

} // verus!
