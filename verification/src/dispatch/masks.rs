//! The flags of the driver that the library uses, by name.

use vstd::prelude::*;
use crate::vk::enums::{
    VkAccessFlagBits, VkBufferUsageFlagBits, VkFenceCreateFlagBits, VkMemoryPropertyFlagBits,
    VkPipelineStageFlagBits, VkShaderStageFlagBits,
};
use crate::vk::types::{
    VkAccessFlags, VkBufferUsageFlags, VkMemoryPropertyFlags, VkPipelineStageFlags,
    VkShaderStageFlags,
};

verus! {

/// The uses of the host-visible buffer: source and destination of transfers.
pub const HOST_BUFFER_USAGE: VkBufferUsageFlags = 0x3;

/// The uses of the device-local buffer: source and destination of
/// transfers, and storage buffer.
pub const DEVICE_BUFFER_USAGE: VkBufferUsageFlags = 0x23;

/// The memory of the host-visible buffer: visible to the host, and cached
/// by it.
pub const HOST_MEMORY_PROPERTIES: VkMemoryPropertyFlags = 0xa;

/// The memory of the device-local buffer: local to the device.
pub const DEVICE_MEMORY_PROPERTIES: VkMemoryPropertyFlags = 0x1;

/// The transfer stage of the pipeline.
pub const STAGE_TRANSFER: VkPipelineStageFlags = 0x1000;

/// The compute-shader stage of the pipeline.
pub const STAGE_COMPUTE_SHADER: VkPipelineStageFlags = 0x800;

/// The pseudo-stage of accesses by the host.
pub const STAGE_HOST: VkPipelineStageFlags = 0x4000;

/// Reads by a shader.
pub const ACCESS_SHADER_READ: VkAccessFlags = 0x20;

/// Writes by a shader.
pub const ACCESS_SHADER_WRITE: VkAccessFlags = 0x40;

/// Reads by a transfer.
pub const ACCESS_TRANSFER_READ: VkAccessFlags = 0x800;

/// Writes by a transfer.
pub const ACCESS_TRANSFER_WRITE: VkAccessFlags = 0x1000;

/// Reads by the host.
pub const ACCESS_HOST_READ: VkAccessFlags = 0x2000;

/// Writes by the host.
pub const ACCESS_HOST_WRITE: VkAccessFlags = 0x4000;

/// A fence that begins in the signaled state.
pub const FENCE_SIGNALED: u32 = 0x1;

/// The compute stage of a shader.
pub const SHADER_STAGE_COMPUTE: VkShaderStageFlags = 0x20;

/// The named masks are the flags of the driver that their names say.
pub proof fn lemma_masks()
    ensures
        HOST_BUFFER_USAGE == VkBufferUsageFlagBits::VK_BUFFER_USAGE_TRANSFER_SRC_BIT.bits()
            | VkBufferUsageFlagBits::VK_BUFFER_USAGE_TRANSFER_DST_BIT.bits(),
        DEVICE_BUFFER_USAGE == VkBufferUsageFlagBits::VK_BUFFER_USAGE_TRANSFER_SRC_BIT.bits()
            | VkBufferUsageFlagBits::VK_BUFFER_USAGE_TRANSFER_DST_BIT.bits()
            | VkBufferUsageFlagBits::VK_BUFFER_USAGE_STORAGE_BUFFER_BIT.bits(),
        HOST_MEMORY_PROPERTIES
            == VkMemoryPropertyFlagBits::VK_MEMORY_PROPERTY_HOST_VISIBLE_BIT.bits()
            | VkMemoryPropertyFlagBits::VK_MEMORY_PROPERTY_HOST_CACHED_BIT.bits(),
        DEVICE_MEMORY_PROPERTIES
            == VkMemoryPropertyFlagBits::VK_MEMORY_PROPERTY_DEVICE_LOCAL_BIT.bits(),
        STAGE_TRANSFER == VkPipelineStageFlagBits::VK_PIPELINE_STAGE_TRANSFER_BIT.bits(),
        STAGE_COMPUTE_SHADER
            == VkPipelineStageFlagBits::VK_PIPELINE_STAGE_COMPUTE_SHADER_BIT.bits(),
        STAGE_HOST == VkPipelineStageFlagBits::VK_PIPELINE_STAGE_HOST_BIT.bits(),
        ACCESS_SHADER_READ == VkAccessFlagBits::VK_ACCESS_SHADER_READ_BIT.bits(),
        ACCESS_SHADER_WRITE == VkAccessFlagBits::VK_ACCESS_SHADER_WRITE_BIT.bits(),
        ACCESS_TRANSFER_READ == VkAccessFlagBits::VK_ACCESS_TRANSFER_READ_BIT.bits(),
        ACCESS_TRANSFER_WRITE == VkAccessFlagBits::VK_ACCESS_TRANSFER_WRITE_BIT.bits(),
        ACCESS_HOST_READ == VkAccessFlagBits::VK_ACCESS_HOST_READ_BIT.bits(),
        ACCESS_HOST_WRITE == VkAccessFlagBits::VK_ACCESS_HOST_WRITE_BIT.bits(),
        FENCE_SIGNALED == VkFenceCreateFlagBits::VK_FENCE_CREATE_SIGNALED_BIT.bits(),
        SHADER_STAGE_COMPUTE == VkShaderStageFlagBits::VK_SHADER_STAGE_COMPUTE_BIT.bits(),
{
    assert(0x1u32 | 0x2u32 == 0x3u32) by (bit_vector);
    assert(0x1u32 | 0x2u32 | 0x20u32 == 0x23u32) by (bit_vector);
    assert(0x2u32 | 0x8u32 == 0xau32) by (bit_vector);
}

} // verus!
