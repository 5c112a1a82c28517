use vstd::prelude::*;
use libc::size_t;
use super::enums::{
    VkCommandBufferLevel, VkCommandPoolCreateFlagBits, VkDescriptorType, VkQueueFlagBits,
    VkShaderStageFlagBits, VkSharingMode, VkStructureType,
};
use super::types::{
    VkAccessFlags, VkApplicationInfo, VkBuffer, VkBufferCopy, VkBufferCreateInfo,
    VkBufferMemoryBarrier, VkBufferUsageFlags, VkCommandBuffer, VkCommandBufferAllocateInfo,
    VkCommandBufferBeginInfo, VkCommandPool, VkCommandPoolCreateInfo,
    VkComputePipelineCreateInfo, VkDescriptorBufferInfo, VkDescriptorPool,
    VkDescriptorPoolCreateInfo, VkDescriptorPoolSize, VkDescriptorSet,
    VkDescriptorSetAllocateInfo, VkDescriptorSetLayout, VkDescriptorSetLayoutBinding,
    VkDescriptorSetLayoutCreateInfo, VkDeviceCreateInfo, VkDeviceMemory,
    VkDeviceQueueCreateInfo, VkDeviceSize, VkExtent3D, VkFenceCreateFlags, VkFenceCreateInfo,
    VkInstanceCreateInfo, VkMappedMemoryRange, VkMemoryAllocateInfo, VkPipeline,
    VkPipelineCacheCreateInfo, VkPipelineLayout, VkPipelineLayoutCreateInfo,
    VkPipelineShaderStageCreateInfo, VkPipelineStageFlags, VkPushConstantRange,
    VkQueueFamilyProperties, VkShaderModule, VkShaderModuleCreateInfo, VkSpecializationInfo,
    VkSpecializationMapEntry, VkSubmitInfo, VkWriteDescriptorSet, VK_API_VERSION_1_1,
    VK_QUEUE_FAMILY_IGNORED,
};

verus! {

impl VkApplicationInfo {
    /// Names an application and its engine to a driver of version 1.1.
    pub fn new(
        application_name: Vec<u8>,
        application_version: u32,
        engine_name: Vec<u8>,
        engine_version: u32,
    ) -> (r: Self)
        ensures
            r == (VkApplicationInfo {
                sType: VkStructureType::VK_STRUCTURE_TYPE_APPLICATION_INFO,
                applicationName: application_name,
                applicationVersion: application_version,
                engineName: engine_name,
                engineVersion: engine_version,
                apiVersion: VK_API_VERSION_1_1,
            }),
    {
        VkApplicationInfo {
            sType: VkStructureType::VK_STRUCTURE_TYPE_APPLICATION_INFO,
            applicationName: application_name,
            applicationVersion: application_version,
            engineName: engine_name,
            engineVersion: engine_version,
            apiVersion: VK_API_VERSION_1_1,
        }
    }
}

impl VkInstanceCreateInfo {
    /// Asks for an instance with no layers and no extensions.
    pub fn new(application_info: VkApplicationInfo) -> (r: Self)
        ensures
            r == (VkInstanceCreateInfo {
                sType: VkStructureType::VK_STRUCTURE_TYPE_INSTANCE_CREATE_INFO,
                flags: 0,
                applicationInfo: application_info,
                enabledLayerCount: 0,
                enabledExtensionCount: 0,
            }),
    {
        VkInstanceCreateInfo {
            sType: VkStructureType::VK_STRUCTURE_TYPE_INSTANCE_CREATE_INFO,
            flags: 0,
            applicationInfo: application_info,
            enabledLayerCount: 0,
            enabledExtensionCount: 0,
        }
    }
}

impl VkQueueFamilyProperties {
    /// A family with no queues and no capabilities.
    pub fn new() -> (r: Self)
        ensures
            r == (VkQueueFamilyProperties {
                queueFlags: 0,
                queueCount: 0,
                timestampValidBits: 0,
                minImageTransferGranularity: VkExtent3D { width: 0, height: 0, depth: 0 },
            }),
    {
        VkQueueFamilyProperties {
            queueFlags: 0,
            queueCount: 0,
            timestampValidBits: 0,
            minImageTransferGranularity: VkExtent3D::new(),
        }
    }

    /// Whether the family's queues run compute work: whether the compute
    /// bit is among its capability flags.
    pub open spec fn spec_has_compute_queue_bit(&self) -> bool {
        (self.queueFlags & VkQueueFlagBits::VK_QUEUE_COMPUTE_BIT.spec_bits()) != 0
    }

    /// Whether the family's queues run compute work.
    #[verifier::when_used_as_spec(spec_has_compute_queue_bit)]
    pub fn has_compute_queue_bit(&self) -> (r: bool)
        ensures
            r == self.spec_has_compute_queue_bit(),
    {
        (self.queueFlags & VkQueueFlagBits::VK_QUEUE_COMPUTE_BIT.bits()) != 0
    }
}

impl VkExtent3D {
    /// The empty extent.
    pub fn new() -> (r: Self)
        ensures
            r == (VkExtent3D { width: 0, height: 0, depth: 0 }),
    {
        VkExtent3D { width: 0, height: 0, depth: 0 }
    }
}

impl VkDeviceQueueCreateInfo {
    /// Asks for `queue_count` queues of one family, each with the priority
    /// whose bit pattern is `queue_priority_bits`.
    pub fn new(family_index: u32, queue_count: u32, queue_priority_bits: u32) -> (r: Self)
        ensures
            r == (VkDeviceQueueCreateInfo {
                sType: VkStructureType::VK_STRUCTURE_TYPE_DEVICE_QUEUE_CREATE_INFO,
                flags: 0,
                queueFamilyIndex: family_index,
                queueCount: queue_count,
                queuePriorityBits: queue_priority_bits,
            }),
    {
        VkDeviceQueueCreateInfo {
            sType: VkStructureType::VK_STRUCTURE_TYPE_DEVICE_QUEUE_CREATE_INFO,
            flags: 0,
            queueFamilyIndex: family_index,
            queueCount: queue_count,
            queuePriorityBits: queue_priority_bits,
        }
    }
}

impl VkDeviceCreateInfo {
    /// Asks for a logical device with the queues of one family.
    pub fn new(queue_create_info: VkDeviceQueueCreateInfo) -> (r: Self)
        ensures
            r == (VkDeviceCreateInfo {
                sType: VkStructureType::VK_STRUCTURE_TYPE_DEVICE_CREATE_INFO,
                flags: 0,
                queueCreateInfoCount: 1,
                queueCreateInfo: queue_create_info,
                enabledLayerCount: 0,
                enabledExtensionCount: 0,
            }),
    {
        VkDeviceCreateInfo {
            sType: VkStructureType::VK_STRUCTURE_TYPE_DEVICE_CREATE_INFO,
            flags: 0,
            queueCreateInfoCount: 1,
            queueCreateInfo: queue_create_info,
            enabledLayerCount: 0,
            enabledExtensionCount: 0,
        }
    }
}

impl VkCommandPoolCreateInfo {
    /// Asks for a pool on one queue family whose command buffers can be
    /// reset one by one.
    pub fn new(queue_family_index: u32) -> (r: Self)
        ensures
            r == (VkCommandPoolCreateInfo {
                sType: VkStructureType::VK_STRUCTURE_TYPE_COMMAND_POOL_CREATE_INFO,
                flags: 2,
                queueFamilyIndex: queue_family_index,
            }),
    {
        VkCommandPoolCreateInfo {
            sType: VkStructureType::VK_STRUCTURE_TYPE_COMMAND_POOL_CREATE_INFO,
            flags: VkCommandPoolCreateFlagBits::VK_COMMAND_POOL_CREATE_RESET_COMMAND_BUFFER_BIT.bits(),
            queueFamilyIndex: queue_family_index,
        }
    }
}

impl VkBufferCreateInfo {
    /// Asks for a buffer of `size` bytes.
    pub fn new(
        size: VkDeviceSize,
        usage_flags: VkBufferUsageFlags,
        sharing_mode: VkSharingMode,
    ) -> (r: Self)
        ensures
            r == (VkBufferCreateInfo {
                sType: VkStructureType::VK_STRUCTURE_TYPE_BUFFER_CREATE_INFO,
                flags: 0,
                size,
                usage: usage_flags,
                sharingMode: sharing_mode,
                queueFamilyIndexCount: 0,
            }),
    {
        VkBufferCreateInfo {
            sType: VkStructureType::VK_STRUCTURE_TYPE_BUFFER_CREATE_INFO,
            flags: 0,
            size,
            usage: usage_flags,
            sharingMode: sharing_mode,
            queueFamilyIndexCount: 0,
        }
    }
}

impl VkMemoryAllocateInfo {
    /// Asks for `allocation_size` bytes of one memory type.
    pub fn new(allocation_size: VkDeviceSize, memory_type_index: u32) -> (r: Self)
        ensures
            r == (VkMemoryAllocateInfo {
                sType: VkStructureType::VK_STRUCTURE_TYPE_MEMORY_ALLOCATE_INFO,
                allocationSize: allocation_size,
                memoryTypeIndex: memory_type_index,
            }),
    {
        VkMemoryAllocateInfo {
            sType: VkStructureType::VK_STRUCTURE_TYPE_MEMORY_ALLOCATE_INFO,
            allocationSize: allocation_size,
            memoryTypeIndex: memory_type_index,
        }
    }
}

impl VkMappedMemoryRange {
    /// The `size` bytes of `memory` from `offset` on.
    pub fn new(memory: VkDeviceMemory, offset: VkDeviceSize, size: VkDeviceSize) -> (r: Self)
        ensures
            r == (VkMappedMemoryRange {
                sType: VkStructureType::VK_STRUCTURE_TYPE_MAPPED_MEMORY_RANGE,
                memory,
                offset,
                size,
            }),
    {
        VkMappedMemoryRange {
            sType: VkStructureType::VK_STRUCTURE_TYPE_MAPPED_MEMORY_RANGE,
            memory,
            offset,
            size,
        }
    }
}

impl VkCommandBufferAllocateInfo {
    /// Asks a pool for command buffers of one level.
    pub fn new(
        command_pool: VkCommandPool,
        level: VkCommandBufferLevel,
        command_buffer_count: u32,
    ) -> (r: Self)
        ensures
            r == (VkCommandBufferAllocateInfo {
                sType: VkStructureType::VK_STRUCTURE_TYPE_COMMAND_BUFFER_ALLOCATE_INFO,
                commandPool: command_pool,
                level,
                commandBufferCount: command_buffer_count,
            }),
    {
        VkCommandBufferAllocateInfo {
            sType: VkStructureType::VK_STRUCTURE_TYPE_COMMAND_BUFFER_ALLOCATE_INFO,
            commandPool: command_pool,
            level,
            commandBufferCount: command_buffer_count,
        }
    }
}

impl VkCommandBufferBeginInfo {
    /// Begins a recording that can be submitted any number of times.
    pub fn new() -> (r: Self)
        ensures
            r == (VkCommandBufferBeginInfo {
                sType: VkStructureType::VK_STRUCTURE_TYPE_COMMAND_BUFFER_BEGIN_INFO,
                flags: 0,
            }),
    {
        VkCommandBufferBeginInfo {
            sType: VkStructureType::VK_STRUCTURE_TYPE_COMMAND_BUFFER_BEGIN_INFO,
            flags: 0,
        }
    }
}

impl VkBufferCopy {
    /// The copy of `size` bytes that lie at `offset` in the source to the
    /// same offset in the destination.
    pub fn new(offset: VkDeviceSize, size: VkDeviceSize) -> (r: Self)
        ensures
            r == (VkBufferCopy { srcOffset: offset, dstOffset: offset, size }),
    {
        VkBufferCopy { srcOffset: offset, dstOffset: offset, size }
    }
}

impl VkSubmitInfo {
    /// Hands one command buffer to a queue, with no stage mask.
    pub fn with_command_buffer(command_buffer: VkCommandBuffer) -> (r: Self)
        ensures
            r == (VkSubmitInfo {
                sType: VkStructureType::VK_STRUCTURE_TYPE_SUBMIT_INFO,
                waitSemaphoreCount: 0,
                waitDstStageMask: None,
                commandBufferCount: 1,
                commandBuffer: command_buffer,
                signalSemaphoreCount: 0,
            }),
    {
        VkSubmitInfo {
            sType: VkStructureType::VK_STRUCTURE_TYPE_SUBMIT_INFO,
            waitSemaphoreCount: 0,
            waitDstStageMask: None,
            commandBufferCount: 1,
            commandBuffer: command_buffer,
            signalSemaphoreCount: 0,
        }
    }

    /// Hands one command buffer to a queue and names the stages that wait.
    pub fn with_command_buffer_wait(
        command_buffer: VkCommandBuffer,
        wait_dst_stage_mask: VkPipelineStageFlags,
    ) -> (r: Self)
        ensures
            r == (VkSubmitInfo {
                sType: VkStructureType::VK_STRUCTURE_TYPE_SUBMIT_INFO,
                waitSemaphoreCount: 0,
                waitDstStageMask: Some(wait_dst_stage_mask),
                commandBufferCount: 1,
                commandBuffer: command_buffer,
                signalSemaphoreCount: 0,
            }),
    {
        VkSubmitInfo {
            sType: VkStructureType::VK_STRUCTURE_TYPE_SUBMIT_INFO,
            waitSemaphoreCount: 0,
            waitDstStageMask: Some(wait_dst_stage_mask),
            commandBufferCount: 1,
            commandBuffer: command_buffer,
            signalSemaphoreCount: 0,
        }
    }
}

impl VkFenceCreateInfo {
    /// Asks for a fence in the state that `flags` gives.
    pub fn new(flags: VkFenceCreateFlags) -> (r: Self)
        ensures
            r == (VkFenceCreateInfo {
                sType: VkStructureType::VK_STRUCTURE_TYPE_FENCE_CREATE_INFO,
                flags,
            }),
    {
        VkFenceCreateInfo { sType: VkStructureType::VK_STRUCTURE_TYPE_FENCE_CREATE_INFO, flags }
    }
}

impl VkDescriptorPoolSize {
    /// Room for `count` descriptors of one type.
    pub fn new(descriptor_type: VkDescriptorType, count: u32) -> (r: VkDescriptorPoolSize)
        ensures
            r == (VkDescriptorPoolSize { descriptorType: descriptor_type, descriptorCount: count }),
    {
        VkDescriptorPoolSize { descriptorType: descriptor_type, descriptorCount: count }
    }
}

impl VkDescriptorPoolCreateInfo {
    /// Asks for a pool of at most `max_sets` sets with room as `size` says.
    pub fn new(max_sets: u32, size: VkDescriptorPoolSize) -> (r: Self)
        ensures
            r == (VkDescriptorPoolCreateInfo {
                sType: VkStructureType::VK_STRUCTURE_TYPE_DESCRIPTOR_POOL_CREATE_INFO,
                flags: 0,
                maxSets: max_sets,
                poolSizeCount: 1,
                poolSize: size,
            }),
    {
        VkDescriptorPoolCreateInfo {
            sType: VkStructureType::VK_STRUCTURE_TYPE_DESCRIPTOR_POOL_CREATE_INFO,
            flags: 0,
            maxSets: max_sets,
            poolSizeCount: 1,
            poolSize: size,
        }
    }
}

impl VkDescriptorSetLayoutBinding {
    /// Binding number `binding` with one descriptor of the given type,
    /// visible to the given stages.
    pub fn new(descriptor_type: VkDescriptorType, stage_flags: u32, binding: u32) -> (r: Self)
        ensures
            r == (VkDescriptorSetLayoutBinding {
                binding,
                descriptorType: descriptor_type,
                descriptorCount: 1,
                stageFlags: stage_flags,
            }),
    {
        VkDescriptorSetLayoutBinding {
            binding,
            descriptorType: descriptor_type,
            descriptorCount: 1,
            stageFlags: stage_flags,
        }
    }
}

impl VkDescriptorSetLayoutCreateInfo {
    /// Asks for a layout with the given bindings.
    pub fn new(bindings: Vec<VkDescriptorSetLayoutBinding>) -> (r: Self)
        ensures
            r == (VkDescriptorSetLayoutCreateInfo {
                sType: VkStructureType::VK_STRUCTURE_TYPE_DESCRIPTOR_SET_LAYOUT_CREATE_INFO,
                flags: 0,
                bindings,
            }),
    {
        VkDescriptorSetLayoutCreateInfo {
            sType: VkStructureType::VK_STRUCTURE_TYPE_DESCRIPTOR_SET_LAYOUT_CREATE_INFO,
            flags: 0,
            bindings,
        }
    }
}

impl VkPipelineLayoutCreateInfo {
    /// Asks for a pipeline layout with one set layout and, where given,
    /// one push-constant range.
    pub fn new(
        layout: VkDescriptorSetLayout,
        push_constant_range: Option<VkPushConstantRange>,
    ) -> (r: Self)
        ensures
            r == (VkPipelineLayoutCreateInfo {
                sType: VkStructureType::VK_STRUCTURE_TYPE_PIPELINE_LAYOUT_CREATE_INFO,
                flags: 0,
                setLayoutCount: 1,
                setLayout: layout,
                pushConstantRange: push_constant_range,
            }),
    {
        VkPipelineLayoutCreateInfo {
            sType: VkStructureType::VK_STRUCTURE_TYPE_PIPELINE_LAYOUT_CREATE_INFO,
            flags: 0,
            setLayoutCount: 1,
            setLayout: layout,
            pushConstantRange: push_constant_range,
        }
    }
}

impl VkDescriptorSetAllocateInfo {
    /// Asks a pool for one set of the given layout.
    pub fn new(descriptor_pool: VkDescriptorPool, layout: VkDescriptorSetLayout) -> (r: Self)
        ensures
            r == (VkDescriptorSetAllocateInfo {
                sType: VkStructureType::VK_STRUCTURE_TYPE_DESCRIPTOR_SET_ALLOCATE_INFO,
                descriptorPool: descriptor_pool,
                descriptorSetCount: 1,
                setLayout: layout,
            }),
    {
        VkDescriptorSetAllocateInfo {
            sType: VkStructureType::VK_STRUCTURE_TYPE_DESCRIPTOR_SET_ALLOCATE_INFO,
            descriptorPool: descriptor_pool,
            descriptorSetCount: 1,
            setLayout: layout,
        }
    }
}

impl VkDescriptorBufferInfo {
    /// The `range` bytes of `buffer` from `offset` on.
    pub fn new(buffer: VkBuffer, offset: VkDeviceSize, range: VkDeviceSize) -> (r: Self)
        ensures
            r == (VkDescriptorBufferInfo { buffer, offset, range }),
    {
        VkDescriptorBufferInfo { buffer, offset, range }
    }
}

impl VkWriteDescriptorSet {
    /// Writes one buffer descriptor to binding `dst_binding` of `dst_set`.
    pub fn new(
        dst_set: VkDescriptorSet,
        descriptor_type: VkDescriptorType,
        dst_binding: u32,
        buffer_info: VkDescriptorBufferInfo,
    ) -> (r: Self)
        ensures
            r == (VkWriteDescriptorSet {
                sType: VkStructureType::VK_STRUCTURE_TYPE_WRITE_DESCRIPTOR_SET,
                dstSet: dst_set,
                dstBinding: dst_binding,
                dstArrayElement: 0,
                descriptorCount: 1,
                descriptorType: descriptor_type,
                bufferInfo: buffer_info,
            }),
    {
        VkWriteDescriptorSet {
            sType: VkStructureType::VK_STRUCTURE_TYPE_WRITE_DESCRIPTOR_SET,
            dstSet: dst_set,
            dstBinding: dst_binding,
            dstArrayElement: 0,
            descriptorCount: 1,
            descriptorType: descriptor_type,
            bufferInfo: buffer_info,
        }
    }
}

impl VkPipelineCacheCreateInfo {
    /// Asks for an empty pipeline cache.
    pub fn new() -> (r: Self)
        ensures
            r == (VkPipelineCacheCreateInfo {
                sType: VkStructureType::VK_STRUCTURE_TYPE_PIPELINE_CACHE_CREATE_INFO,
                flags: 0,
                initialDataSize: 0,
            }),
    {
        VkPipelineCacheCreateInfo {
            sType: VkStructureType::VK_STRUCTURE_TYPE_PIPELINE_CACHE_CREATE_INFO,
            flags: 0,
            initialDataSize: 0,
        }
    }
}

impl VkPipelineShaderStageCreateInfo {
    /// One stage that runs entry point `name` of `module`.
    pub fn new(
        stage: VkShaderStageFlagBits,
        module: VkShaderModule,
        name: Vec<u8>,
        specialization_info: VkSpecializationInfo,
    ) -> (r: Self)
        ensures
            r == (VkPipelineShaderStageCreateInfo {
                sType: VkStructureType::VK_STRUCTURE_TYPE_PIPELINE_SHADER_STAGE_CREATE_INFO,
                flags: 0,
                stage,
                module,
                name,
                specializationInfo: specialization_info,
            }),
    {
        VkPipelineShaderStageCreateInfo {
            sType: VkStructureType::VK_STRUCTURE_TYPE_PIPELINE_SHADER_STAGE_CREATE_INFO,
            flags: 0,
            stage,
            module,
            name,
            specializationInfo: specialization_info,
        }
    }
}

impl VkComputePipelineCreateInfo {
    /// Asks for a compute pipeline that derives from no other.
    pub fn new(stage: VkPipelineShaderStageCreateInfo, layout: VkPipelineLayout) -> (r: Self)
        ensures
            r.sType == VkStructureType::VK_STRUCTURE_TYPE_COMPUTE_PIPELINE_CREATE_INFO,
            r.flags == 0,
            r.stage == stage,
            r.layout == layout,
            r.basePipelineHandle.address == 0,
            r.basePipelineIndex == 0,
    {
        VkComputePipelineCreateInfo {
            sType: VkStructureType::VK_STRUCTURE_TYPE_COMPUTE_PIPELINE_CREATE_INFO,
            flags: 0,
            stage,
            layout,
            basePipelineHandle: VkPipeline::null(),
            basePipelineIndex: 0,
        }
    }
}

impl VkShaderModuleCreateInfo {
    /// Asks for a shader module from `code_size_bytes` bytes of code.
    pub fn new(code_size_bytes: size_t, code: Vec<u8>) -> (r: Self)
        ensures
            r == (VkShaderModuleCreateInfo {
                sType: VkStructureType::VK_STRUCTURE_TYPE_SHADER_MODULE_CREATE_INFO,
                flags: 0,
                codeSize: code_size_bytes,
                code,
            }),
    {
        VkShaderModuleCreateInfo {
            sType: VkStructureType::VK_STRUCTURE_TYPE_SHADER_MODULE_CREATE_INFO,
            flags: 0,
            codeSize: code_size_bytes,
            code,
        }
    }
}

impl VkSpecializationMapEntry {
    /// Constant `constant_id` takes the `size` bytes at `offset` of the data.
    pub fn new(constant_id: u32, offset: u32, size: size_t) -> (r: Self)
        ensures
            r == (VkSpecializationMapEntry { constantID: constant_id, offset, size }),
    {
        VkSpecializationMapEntry { constantID: constant_id, offset, size }
    }
}

impl VkSpecializationInfo {
    /// The constants that `entries` locate in `data`.
    pub fn new(entries: Vec<VkSpecializationMapEntry>, data: Vec<u8>) -> (r: Self)
        ensures
            r == (VkSpecializationInfo { mapEntries: entries, data }),
    {
        VkSpecializationInfo { mapEntries: entries, data }
    }
}

impl VkBufferMemoryBarrier {
    /// Orders the accesses of `src_access_mask` before those of
    /// `dst_access_mask` on `size` bytes of `buffer` from `offset` on, with
    /// no change of queue family.
    pub fn new(
        src_access_mask: VkAccessFlags,
        dst_access_mask: VkAccessFlags,
        buffer: VkBuffer,
        offset: VkDeviceSize,
        size: VkDeviceSize,
    ) -> (r: Self)
        ensures
            r == (VkBufferMemoryBarrier {
                sType: VkStructureType::VK_STRUCTURE_TYPE_BUFFER_MEMORY_BARRIER,
                srcAccessMask: src_access_mask,
                dstAccessMask: dst_access_mask,
                srcQueueFamilyIndex: VK_QUEUE_FAMILY_IGNORED,
                dstQueueFamilyIndex: VK_QUEUE_FAMILY_IGNORED,
                buffer,
                offset,
                size,
            }),
    {
        VkBufferMemoryBarrier {
            sType: VkStructureType::VK_STRUCTURE_TYPE_BUFFER_MEMORY_BARRIER,
            srcAccessMask: src_access_mask,
            dstAccessMask: dst_access_mask,
            srcQueueFamilyIndex: VK_QUEUE_FAMILY_IGNORED,
            dstQueueFamilyIndex: VK_QUEUE_FAMILY_IGNORED,
            buffer,
            offset,
            size,
        }
    }
}

} // verus!
