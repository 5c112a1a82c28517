//! What the library asks of the world outside it, and what comes back.
//!
//! The library never talks to the driver itself. It says which call is to
//! be made next, as a [`Call`] of plain values, and is told the outcome as a
//! [`Reply`]. Whoever runs the library makes the calls.

use vstd::prelude::*;
use crate::vk::enums::{VkPipelineBindPoint, VkResult};
use crate::vk::types::{
    VkBool32, VkBuffer, VkBufferCopy, VkBufferCreateInfo, VkBufferMemoryBarrier,
    VkCommandBuffer, VkCommandBufferAllocateInfo, VkCommandBufferBeginInfo, VkCommandPool,
    VkCommandPoolCreateInfo, VkComputePipelineCreateInfo, VkDependencyFlags, VkDescriptorPool,
    VkDescriptorPoolCreateInfo, VkDescriptorSet, VkDescriptorSetAllocateInfo,
    VkDescriptorSetLayout, VkDescriptorSetLayoutCreateInfo, VkDevice, VkDeviceCreateInfo,
    VkDeviceMemory, VkDeviceSize, VkFence, VkFenceCreateInfo, VkInstance,
    VkInstanceCreateInfo, VkMappedMemoryRange, VkMemoryAllocateInfo, VkMemoryMapFlags,
    VkMemoryRequirements, VkPhysicalDevice, VkPhysicalDeviceMemoryProperties, VkPipeline,
    VkPipelineCache, VkPipelineCacheCreateInfo, VkPipelineLayout, VkPipelineLayoutCreateInfo,
    VkPipelineStageFlags, VkQueue, VkQueueFamilyProperties, VkShaderModule,
    VkShaderModuleCreateInfo, VkShaderStageFlags, VkSubmitInfo, VkWriteDescriptorSet,
};

verus! {

/// One command in the recording of a command buffer.
#[derive(Debug, Clone, PartialEq, Eq)]
pub enum Command {
    /// Copy one byte range from `src` to `dst`.
    CopyBuffer { src: VkBuffer, dst: VkBuffer, region: VkBufferCopy },
    /// Order the accesses to a buffer range before and after this point.
    PipelineBarrier {
        src_stage_mask: VkPipelineStageFlags,
        dst_stage_mask: VkPipelineStageFlags,
        dependency_flags: VkDependencyFlags,
        buffer_barrier: VkBufferMemoryBarrier,
    },
    /// Set the push constants from `offset` on to the bytes of `data`.
    PushConstants {
        layout: VkPipelineLayout,
        stage_flags: VkShaderStageFlags,
        offset: u32,
        data: Vec<u8>,
    },
    /// Make `pipeline` the current pipeline.
    BindPipeline { bind_point: VkPipelineBindPoint, pipeline: VkPipeline },
    /// Make `descriptor_set` the current set number `first_set`.
    BindDescriptorSets {
        bind_point: VkPipelineBindPoint,
        layout: VkPipelineLayout,
        first_set: u32,
        descriptor_set: VkDescriptorSet,
    },
    /// Launch `x * y * z` workgroups.
    Dispatch { x: u32, y: u32, z: u32 },
}

/// One request to the outside: a driver entry point with its arguments, the
/// reading of a file, or an access to mapped host memory.
#[derive(Debug, Clone, PartialEq, Eq)]
pub enum Call {
    CreateInstance { info: VkInstanceCreateInfo },
    DestroyInstance { instance: VkInstance },
    EnumeratePhysicalDevices { instance: VkInstance },
    GetPhysicalDeviceQueueFamilyProperties { physical_device: VkPhysicalDevice },
    GetPhysicalDeviceMemoryProperties { physical_device: VkPhysicalDevice },
    CreateDevice { physical_device: VkPhysicalDevice, info: VkDeviceCreateInfo },
    DestroyDevice { device: VkDevice },
    GetDeviceQueue { device: VkDevice, queue_family_index: u32, queue_index: u32 },
    CreateCommandPool { device: VkDevice, info: VkCommandPoolCreateInfo },
    DestroyCommandPool { device: VkDevice, command_pool: VkCommandPool },
    /// Read the whole file at `path`.
    ReadFile { path: String },
    CreateShaderModule { device: VkDevice, info: VkShaderModuleCreateInfo },
    DestroyShaderModule { device: VkDevice, shader_module: VkShaderModule },
    CreateBuffer { device: VkDevice, info: VkBufferCreateInfo },
    DestroyBuffer { device: VkDevice, buffer: VkBuffer },
    GetBufferMemoryRequirements { device: VkDevice, buffer: VkBuffer },
    AllocateMemory { device: VkDevice, info: VkMemoryAllocateInfo },
    FreeMemory { device: VkDevice, memory: VkDeviceMemory },
    BindBufferMemory {
        device: VkDevice,
        buffer: VkBuffer,
        memory: VkDeviceMemory,
        memory_offset: VkDeviceSize,
    },
    MapMemory {
        device: VkDevice,
        memory: VkDeviceMemory,
        offset: VkDeviceSize,
        size: VkDeviceSize,
        flags: VkMemoryMapFlags,
    },
    UnmapMemory { device: VkDevice, memory: VkDeviceMemory },
    FlushMappedMemoryRanges { device: VkDevice, range: VkMappedMemoryRange },
    InvalidateMappedMemoryRanges { device: VkDevice, range: VkMappedMemoryRange },
    /// Let the caller write the `size` bytes that lie `offset` bytes behind
    /// the address `mapped`.
    WriteMapped { mapped: usize, offset: VkDeviceSize, size: VkDeviceSize },
    /// Let the caller read the `size` bytes that lie `offset` bytes behind
    /// the address `mapped`.
    ReadMapped { mapped: usize, offset: VkDeviceSize, size: VkDeviceSize },
    AllocateCommandBuffers { device: VkDevice, info: VkCommandBufferAllocateInfo },
    FreeCommandBuffers {
        device: VkDevice,
        command_pool: VkCommandPool,
        command_buffer: VkCommandBuffer,
    },
    /// Begin the recording of `command_buffer`, record `commands` in order,
    /// and end the recording.
    Record {
        command_buffer: VkCommandBuffer,
        begin: VkCommandBufferBeginInfo,
        commands: Vec<Command>,
    },
    CreateFence { device: VkDevice, info: VkFenceCreateInfo },
    DestroyFence { device: VkDevice, fence: VkFence },
    ResetFences { device: VkDevice, fence: VkFence },
    QueueSubmit { queue: VkQueue, submit: VkSubmitInfo, fence: VkFence },
    WaitForFences { device: VkDevice, fence: VkFence, wait_all: VkBool32, timeout: u64 },
    CreateDescriptorPool { device: VkDevice, info: VkDescriptorPoolCreateInfo },
    DestroyDescriptorPool { device: VkDevice, descriptor_pool: VkDescriptorPool },
    CreateDescriptorSetLayout { device: VkDevice, info: VkDescriptorSetLayoutCreateInfo },
    DestroyDescriptorSetLayout { device: VkDevice, layout: VkDescriptorSetLayout },
    CreatePipelineLayout { device: VkDevice, info: VkPipelineLayoutCreateInfo },
    DestroyPipelineLayout { device: VkDevice, layout: VkPipelineLayout },
    AllocateDescriptorSets { device: VkDevice, info: VkDescriptorSetAllocateInfo },
    UpdateDescriptorSets { device: VkDevice, writes: Vec<VkWriteDescriptorSet> },
    CreatePipelineCache { device: VkDevice, info: VkPipelineCacheCreateInfo },
    DestroyPipelineCache { device: VkDevice, cache: VkPipelineCache },
    CreateComputePipelines {
        device: VkDevice,
        cache: VkPipelineCache,
        info: VkComputePipelineCreateInfo,
    },
    DestroyPipeline { device: VkDevice, pipeline: VkPipeline },
}

/// The shape of a [`Reply`].
#[derive(Debug, Clone, Copy, PartialEq, Eq, Structural)]
pub enum ReplyKind {
    Done,
    Status,
    Handle,
    PhysicalDevices,
    QueueFamilies,
    MemoryProperties,
    MemoryRequirements,
    File,
}

/// The outcome of one [`Call`].
#[derive(Debug, PartialEq, Eq)]
pub enum Reply {
    /// The call was made; it reports nothing.
    Done,
    /// The status that the entry point returned.
    Status(VkResult),
    /// The status, and the address of the object or of the mapping that
    /// the entry point gave. The address means nothing unless the status
    /// is success.
    Handle(VkResult, usize),
    /// The status and the physical devices, in the driver's order.
    PhysicalDevices(VkResult, Vec<VkPhysicalDevice>),
    /// The queue families of a physical device, in the driver's order.
    QueueFamilies(Vec<VkQueueFamilyProperties>),
    /// The memory types and heaps of a physical device.
    MemoryProperties(VkPhysicalDeviceMemoryProperties),
    /// The memory that a buffer needs.
    MemoryRequirements(VkMemoryRequirements),
    /// The bytes of the file, or why it could not be read.
    File(Result<Vec<u8>, String>),
}

impl Reply {
    /// The shape of this reply.
    pub open spec fn spec_kind(&self) -> ReplyKind {
        match self {
            Reply::Done => ReplyKind::Done,
            Reply::Status(_) => ReplyKind::Status,
            Reply::Handle(_, _) => ReplyKind::Handle,
            Reply::PhysicalDevices(_, _) => ReplyKind::PhysicalDevices,
            Reply::QueueFamilies(_) => ReplyKind::QueueFamilies,
            Reply::MemoryProperties(_) => ReplyKind::MemoryProperties,
            Reply::MemoryRequirements(_) => ReplyKind::MemoryRequirements,
            Reply::File(_) => ReplyKind::File,
        }
    }

    /// The shape of this reply.
    #[verifier::when_used_as_spec(spec_kind)]
    pub fn kind(&self) -> (r: ReplyKind)
        ensures
            r == self.spec_kind(),
    {
        match self {
            Reply::Done => ReplyKind::Done,
            Reply::Status(_) => ReplyKind::Status,
            Reply::Handle(_, _) => ReplyKind::Handle,
            Reply::PhysicalDevices(_, _) => ReplyKind::PhysicalDevices,
            Reply::QueueFamilies(_) => ReplyKind::QueueFamilies,
            Reply::MemoryProperties(_) => ReplyKind::MemoryProperties,
            Reply::MemoryRequirements(_) => ReplyKind::MemoryRequirements,
            Reply::File(_) => ReplyKind::File,
        }
    }

    /// The status that this reply reports. A reply without a status
    /// reports success.
    pub open spec fn spec_status(&self) -> VkResult {
        match self {
            Reply::Status(result) => *result,
            Reply::Handle(result, _) => *result,
            Reply::PhysicalDevices(result, _) => *result,
            _ => VkResult::VK_SUCCESS,
        }
    }

    /// The status that this reply reports.
    #[verifier::when_used_as_spec(spec_status)]
    pub fn status(&self) -> (r: VkResult)
        ensures
            r == self.spec_status(),
    {
        match self {
            Reply::Status(result) => *result,
            Reply::Handle(result, _) => *result,
            Reply::PhysicalDevices(result, _) => *result,
            _ => VkResult::VK_SUCCESS,
        }
    }
}

/// How far the making of one object by one call has come.
#[derive(Debug, Clone, Copy, PartialEq, Eq, Structural)]
pub enum Single {
    /// The call has not been answered.
    Asking,
    /// The driver made the object and gave this address for it.
    Ready(usize),
    /// The driver returned this status, which is not success.
    Failed(VkResult),
}

impl Single {
    /// Where the answer to the call leads: to the address that came with
    /// success, or to the status that came instead. A reply of another
    /// shape changes nothing.
    pub open spec fn spec_accept(self, reply: Reply) -> Single {
        match reply {
            Reply::Handle(VkResult::VK_SUCCESS, address) => Single::Ready(address),
            Reply::Handle(status, _) => Single::Failed(status),
            _ => self,
        }
    }

    /// Where the answer to the call leads.
    #[verifier::when_used_as_spec(spec_accept)]
    pub fn accept(self, reply: Reply) -> (r: Single)
        ensures
            r == self.spec_accept(reply),
    {
        match reply {
            Reply::Handle(VkResult::VK_SUCCESS, address) => Single::Ready(address),
            Reply::Handle(status, _) => Single::Failed(status),
            _ => self,
        }
    }
}

impl Call {
    /// The shape of the reply that answers this call.
    pub open spec fn spec_reply_kind(&self) -> ReplyKind {
        match self {
            Call::CreateInstance { .. }
            | Call::CreateDevice { .. }
            | Call::GetDeviceQueue { .. }
            | Call::CreateCommandPool { .. }
            | Call::CreateShaderModule { .. }
            | Call::CreateBuffer { .. }
            | Call::AllocateMemory { .. }
            | Call::MapMemory { .. }
            | Call::AllocateCommandBuffers { .. }
            | Call::CreateFence { .. }
            | Call::CreateDescriptorPool { .. }
            | Call::CreateDescriptorSetLayout { .. }
            | Call::CreatePipelineLayout { .. }
            | Call::AllocateDescriptorSets { .. }
            | Call::CreatePipelineCache { .. }
            | Call::CreateComputePipelines { .. } => ReplyKind::Handle,
            Call::BindBufferMemory { .. }
            | Call::FlushMappedMemoryRanges { .. }
            | Call::InvalidateMappedMemoryRanges { .. }
            | Call::Record { .. }
            | Call::ResetFences { .. }
            | Call::QueueSubmit { .. }
            | Call::WaitForFences { .. } => ReplyKind::Status,
            Call::EnumeratePhysicalDevices { .. } => ReplyKind::PhysicalDevices,
            Call::GetPhysicalDeviceQueueFamilyProperties { .. } => ReplyKind::QueueFamilies,
            Call::GetPhysicalDeviceMemoryProperties { .. } => ReplyKind::MemoryProperties,
            Call::GetBufferMemoryRequirements { .. } => ReplyKind::MemoryRequirements,
            Call::ReadFile { .. } => ReplyKind::File,
            _ => ReplyKind::Done,
        }
    }

    /// The shape of the reply that answers this call.
    #[verifier::when_used_as_spec(spec_reply_kind)]
    pub fn reply_kind(&self) -> (r: ReplyKind)
        ensures
            r == self.spec_reply_kind(),
    {
        match self {
            Call::CreateInstance { .. }
            | Call::CreateDevice { .. }
            | Call::GetDeviceQueue { .. }
            | Call::CreateCommandPool { .. }
            | Call::CreateShaderModule { .. }
            | Call::CreateBuffer { .. }
            | Call::AllocateMemory { .. }
            | Call::MapMemory { .. }
            | Call::AllocateCommandBuffers { .. }
            | Call::CreateFence { .. }
            | Call::CreateDescriptorPool { .. }
            | Call::CreateDescriptorSetLayout { .. }
            | Call::CreatePipelineLayout { .. }
            | Call::AllocateDescriptorSets { .. }
            | Call::CreatePipelineCache { .. }
            | Call::CreateComputePipelines { .. } => ReplyKind::Handle,
            Call::BindBufferMemory { .. }
            | Call::FlushMappedMemoryRanges { .. }
            | Call::InvalidateMappedMemoryRanges { .. }
            | Call::Record { .. }
            | Call::ResetFences { .. }
            | Call::QueueSubmit { .. }
            | Call::WaitForFences { .. } => ReplyKind::Status,
            Call::EnumeratePhysicalDevices { .. } => ReplyKind::PhysicalDevices,
            Call::GetPhysicalDeviceQueueFamilyProperties { .. } => ReplyKind::QueueFamilies,
            Call::GetPhysicalDeviceMemoryProperties { .. } => ReplyKind::MemoryProperties,
            Call::GetBufferMemoryRequirements { .. } => ReplyKind::MemoryRequirements,
            Call::ReadFile { .. } => ReplyKind::File,
            _ => ReplyKind::Done,
        }
    }
}

} // verus!
