use vstd::prelude::*;
use core::marker::PhantomData;
use libc::size_t;
use super::enums::{
    VkCommandBufferLevel, VkDescriptorType, VkImageLayout, VkShaderStageFlagBits, VkSharingMode,
    VkStructureType,
};

verus! {

pub type VkDeviceSize = u64;

pub type VkBool32 = u32;

pub type VkFlags = u32;

pub type VkSampleCountFlags = VkFlags;

pub type VkQueueFlags = VkFlags;

pub type VkDeviceCreateFlags = VkFlags;

pub type VkCommandPoolCreateFlags = VkFlags;

pub type VkBufferCreateFlags = VkFlags;

pub type VkBufferUsageFlags = VkFlags;

pub type VkMemoryPropertyFlags = VkFlags;

pub type VkMemoryHeapFlags = VkFlags;

pub type VkMemoryMapFlags = VkFlags;

pub type VkCommandBufferUsageFlags = VkFlags;

pub type VkQueryControlFlags = VkFlags;

pub type VkQueryPipelineStatisticFlags = VkFlags;

pub type VkFenceCreateFlags = VkFlags;

pub type VkPipelineStageFlags = VkFlags;

pub type VkDescriptorPoolCreateFlags = VkFlags;

pub type VkDescriptorSetLayoutCreateFlags = VkFlags;

pub type VkShaderStageFlags = VkFlags;

pub type VkPipelineLayoutCreateFlags = VkFlags;

pub type VkPipelineCacheCreateFlags = VkFlags;

pub type VkPipelineCreateFlags = VkFlags;

pub type VkPipelineShaderStageCreateFlags = VkFlags;

pub type VkShaderModuleCreateFlags = VkFlags;

pub type VkAccessFlags = VkFlags;

pub type VkDependencyFlags = VkFlags;

/// A reference to a driver object of kind `T`: the address that the driver
/// gave for it. Address 0 is the null handle, which refers to no object.
#[derive(Debug, PartialEq, Eq)]
pub struct Handle<T> {
    pub address: usize,
    pub object: PhantomData<T>,
}

impl<T> Clone for Handle<T> {
    fn clone(&self) -> (r: Self)
        ensures
            r == *self,
    {
        *self
    }
}

impl<T> Copy for Handle<T> {}

impl<T> Handle<T> {
    /// The handle for the object at `address`.
    pub open spec fn at(address: usize) -> Self {
        Handle { address, object: PhantomData }
    }

    /// The handle that refers to no object.
    pub open spec fn spec_null() -> Self {
        Self::at(0)
    }

    /// The handle that refers to no object.
    #[verifier::when_used_as_spec(spec_null)]
    pub fn null() -> (r: Self)
        ensures
            r == Self::at(0),
    {
        Handle { address: 0, object: PhantomData }
    }

    /// The handle for the object at `address`.
    #[verifier::when_used_as_spec(at)]
    pub fn from_address(address: usize) -> (r: Self)
        ensures
            r == Self::at(address),
    {
        Handle { address, object: PhantomData }
    }

    /// The address that the driver gave for the object.
    pub fn address(&self) -> (r: usize)
        ensures
            r == self.address,
    {
        self.address
    }

    /// Whether this is the null handle.
    pub fn is_null(&self) -> (r: bool)
        ensures
            r == (self.address == 0),
    {
        self.address == 0
    }
}

/// The driver object behind a `VkInstance` handle.
#[derive(Debug, Clone, Copy, PartialEq, Eq)]
pub struct VkInstanceOpaque {
    _private: [u8; 0],
}

pub type VkInstance = Handle<VkInstanceOpaque>;

/// The driver object behind a `VkPhysicalDevice` handle.
#[derive(Debug, Clone, Copy, PartialEq, Eq)]
pub struct VkPhysicalDeviceOpaque {
    _private: [u8; 0],
}

pub type VkPhysicalDevice = Handle<VkPhysicalDeviceOpaque>;

/// The driver object behind a `VkDevice` handle.
#[derive(Debug, Clone, Copy, PartialEq, Eq)]
pub struct VkDeviceOpaque {
    _private: [u8; 0],
}

pub type VkDevice = Handle<VkDeviceOpaque>;

/// The driver object behind a `VkQueue` handle.
#[derive(Debug, Clone, Copy, PartialEq, Eq)]
pub struct VkQueueOpaque {
    _private: [u8; 0],
}

pub type VkQueue = Handle<VkQueueOpaque>;

/// The driver object behind a `VkCommandPool` handle.
#[derive(Debug, Clone, Copy, PartialEq, Eq)]
pub struct VkCommandPoolOpaque {
    _private: [u8; 0],
}

pub type VkCommandPool = Handle<VkCommandPoolOpaque>;

/// The driver object behind a `VkBuffer` handle.
#[derive(Debug, Clone, Copy, PartialEq, Eq)]
pub struct VkBufferOpaque {
    _private: [u8; 0],
}

pub type VkBuffer = Handle<VkBufferOpaque>;

/// The driver object behind a `VkDeviceMemory` handle.
#[derive(Debug, Clone, Copy, PartialEq, Eq)]
pub struct VkDeviceMemoryOpaque {
    _private: [u8; 0],
}

pub type VkDeviceMemory = Handle<VkDeviceMemoryOpaque>;

/// The driver object behind a `VkCommandBuffer` handle.
#[derive(Debug, Clone, Copy, PartialEq, Eq)]
pub struct VkCommandBufferOpaque {
    _private: [u8; 0],
}

pub type VkCommandBuffer = Handle<VkCommandBufferOpaque>;

/// The driver object behind a `VkRenderPass` handle.
#[derive(Debug, Clone, Copy, PartialEq, Eq)]
pub struct VkRenderPassOpaque {
    _private: [u8; 0],
}

pub type VkRenderPass = Handle<VkRenderPassOpaque>;

/// The driver object behind a `VkFramebuffer` handle.
#[derive(Debug, Clone, Copy, PartialEq, Eq)]
pub struct VkFramebufferOpaque {
    _private: [u8; 0],
}

pub type VkFramebuffer = Handle<VkFramebufferOpaque>;

/// The driver object behind a `VkFence` handle.
#[derive(Debug, Clone, Copy, PartialEq, Eq)]
pub struct VkFenceOpaque {
    _private: [u8; 0],
}

pub type VkFence = Handle<VkFenceOpaque>;

/// The driver object behind a `VkSemaphore` handle.
#[derive(Debug, Clone, Copy, PartialEq, Eq)]
pub struct VkSemaphoreOpaque {
    _private: [u8; 0],
}

pub type VkSemaphore = Handle<VkSemaphoreOpaque>;

/// The driver object behind a `VkDescriptorPool` handle.
#[derive(Debug, Clone, Copy, PartialEq, Eq)]
pub struct VkDescriptorPoolOpaque {
    _private: [u8; 0],
}

pub type VkDescriptorPool = Handle<VkDescriptorPoolOpaque>;

/// The driver object behind a `VkDescriptorSetLayout` handle.
#[derive(Debug, Clone, Copy, PartialEq, Eq)]
pub struct VkDescriptorSetLayoutOpaque {
    _private: [u8; 0],
}

pub type VkDescriptorSetLayout = Handle<VkDescriptorSetLayoutOpaque>;

/// The driver object behind a `VkSampler` handle.
#[derive(Debug, Clone, Copy, PartialEq, Eq)]
pub struct VkSamplerOpaque {
    _private: [u8; 0],
}

pub type VkSampler = Handle<VkSamplerOpaque>;

/// The driver object behind a `VkPipelineLayout` handle.
#[derive(Debug, Clone, Copy, PartialEq, Eq)]
pub struct VkPipelineLayoutOpaque {
    _private: [u8; 0],
}

pub type VkPipelineLayout = Handle<VkPipelineLayoutOpaque>;

/// The driver object behind a `VkDescriptorSet` handle.
#[derive(Debug, Clone, Copy, PartialEq, Eq)]
pub struct VkDescriptorSetOpaque {
    _private: [u8; 0],
}

pub type VkDescriptorSet = Handle<VkDescriptorSetOpaque>;

/// The driver object behind a `VkBufferView` handle.
#[derive(Debug, Clone, Copy, PartialEq, Eq)]
pub struct VkBufferViewOpaque {
    _private: [u8; 0],
}

pub type VkBufferView = Handle<VkBufferViewOpaque>;

/// The driver object behind a `VkImageView` handle.
#[derive(Debug, Clone, Copy, PartialEq, Eq)]
pub struct VkImageViewOpaque {
    _private: [u8; 0],
}

pub type VkImageView = Handle<VkImageViewOpaque>;

/// The driver object behind a `VkPipelineCache` handle.
#[derive(Debug, Clone, Copy, PartialEq, Eq)]
pub struct VkPipelineCacheOpaque {
    _private: [u8; 0],
}

pub type VkPipelineCache = Handle<VkPipelineCacheOpaque>;

/// The driver object behind a `VkPipeline` handle.
#[derive(Debug, Clone, Copy, PartialEq, Eq)]
pub struct VkPipelineOpaque {
    _private: [u8; 0],
}

pub type VkPipeline = Handle<VkPipelineOpaque>;

/// The driver object behind a `VkShaderModule` handle.
#[derive(Debug, Clone, Copy, PartialEq, Eq)]
pub struct VkShaderModuleOpaque {
    _private: [u8; 0],
}

pub type VkShaderModule = Handle<VkShaderModuleOpaque>;

/// The driver object behind a `VkMemoryBarrier` handle.
#[derive(Debug, Clone, Copy, PartialEq, Eq)]
pub struct VkMemoryBarrierOpaque {
    _private: [u8; 0],
}

pub type VkMemoryBarrier = Handle<VkMemoryBarrierOpaque>;

/// The driver object behind a `VkImageMemoryBarrier` handle.
#[derive(Debug, Clone, Copy, PartialEq, Eq)]
pub struct VkImageMemoryBarrierOpaque {
    _private: [u8; 0],
}

pub type VkImageMemoryBarrier = Handle<VkImageMemoryBarrierOpaque>;

pub const VK_MAX_PHYSICAL_DEVICE_NAME_SIZE: size_t = 256;

pub const VK_UUID_SIZE: size_t = 16;

pub const VK_MAX_MEMORY_TYPES: size_t = 32;

pub const VK_MAX_MEMORY_HEAPS: size_t = 16;

pub const VK_WHOLE_SIZE: u64 = 0xffff_ffff_ffff_ffff;

pub const VK_FLAGS_NONE: VkFlags = 0;

pub const VK_TRUE: VkBool32 = 1;

pub const VK_FALSE: VkBool32 = 0;

pub const VK_QUEUE_FAMILY_IGNORED: u32 = 0xffff_ffff;

pub const VK_API_VERSION_1_1: u32 = 4198400;

/// A size in three dimensions.
#[derive(Debug, Clone, Copy, PartialEq, Eq, Structural)]
pub struct VkExtent3D {
    pub width: u32,
    pub height: u32,
    pub depth: u32,
}

/// Sparse-memory properties of a physical device.
#[derive(Debug, Clone, Copy, PartialEq, Eq, Structural)]
pub struct VkPhysicalDeviceSparseProperties {
    pub residencyStandard2DBlockShape: VkBool32,
    pub residencyStandard2DMultisampleBlockShape: VkBool32,
    pub residencyStandard3DBlockShape: VkBool32,
    pub residencyAlignedMipSize: VkBool32,
    pub residencyNonResidentStrict: VkBool32,
}

/// What one queue family of a physical device offers.
#[derive(Debug, Clone, Copy, PartialEq, Eq, Structural)]
pub struct VkQueueFamilyProperties {
    pub queueFlags: VkQueueFlags,
    pub queueCount: u32,
    pub timestampValidBits: u32,
    pub minImageTransferGranularity: VkExtent3D,
}

/// Optional features of a physical device.
#[derive(Debug, Clone, Copy, PartialEq, Eq, Structural)]
pub struct VkPhysicalDeviceFeatures {
    pub robustBufferAccess: VkBool32,
    pub fullDrawIndexUint32: VkBool32,
    pub imageCubeArray: VkBool32,
    pub independentBlend: VkBool32,
    pub geometryShader: VkBool32,
    pub tessellationShader: VkBool32,
    pub sampleRateShading: VkBool32,
    pub dualSrcBlend: VkBool32,
    pub logicOp: VkBool32,
    pub multiDrawIndirect: VkBool32,
    pub drawIndirectFirstInstance: VkBool32,
    pub depthClamp: VkBool32,
    pub depthBiasClamp: VkBool32,
    pub fillModeNonSolid: VkBool32,
    pub depthBounds: VkBool32,
    pub wideLines: VkBool32,
    pub largePoints: VkBool32,
    pub alphaToOne: VkBool32,
    pub multiViewport: VkBool32,
    pub samplerAnisotropy: VkBool32,
    pub textureCompressionETC2: VkBool32,
    pub textureCompressionASTC_LDR: VkBool32,
    pub textureCompressionBC: VkBool32,
    pub occlusionQueryPrecise: VkBool32,
    pub pipelineStatisticsQuery: VkBool32,
    pub vertexPipelineStoresAndAtomics: VkBool32,
    pub fragmentStoresAndAtomics: VkBool32,
    pub shaderTessellationAndGeometryPointSize: VkBool32,
    pub shaderImageGatherExtended: VkBool32,
    pub shaderStorageImageExtendedFormats: VkBool32,
    pub shaderStorageImageMultisample: VkBool32,
    pub shaderStorageImageReadWithoutFormat: VkBool32,
    pub shaderStorageImageWriteWithoutFormat: VkBool32,
    pub shaderUniformBufferArrayDynamicIndexing: VkBool32,
    pub shaderSampledImageArrayDynamicIndexing: VkBool32,
    pub shaderStorageBufferArrayDynamicIndexing: VkBool32,
    pub shaderStorageImageArrayDynamicIndexing: VkBool32,
    pub shaderClipDistance: VkBool32,
    pub shaderCullDistance: VkBool32,
    pub shaderFloat64: VkBool32,
    pub shaderInt64: VkBool32,
    pub shaderInt16: VkBool32,
    pub shaderResourceResidency: VkBool32,
    pub shaderResourceMinLod: VkBool32,
    pub sparseBinding: VkBool32,
    pub sparseResidencyBuffer: VkBool32,
    pub sparseResidencyImage2D: VkBool32,
    pub sparseResidencyImage3D: VkBool32,
    pub sparseResidency2Samples: VkBool32,
    pub sparseResidency4Samples: VkBool32,
    pub sparseResidency8Samples: VkBool32,
    pub sparseResidency16Samples: VkBool32,
    pub sparseResidencyAliased: VkBool32,
    pub variableMultisampleRate: VkBool32,
    pub inheritedQueries: VkBool32,
}

/// One memory type of a physical device.
#[derive(Debug, Clone, Copy, PartialEq, Eq, Structural)]
pub struct VkMemoryType {
    pub propertyFlags: VkMemoryPropertyFlags,
    pub heapIndex: u32,
}

/// One memory heap of a physical device.
#[derive(Debug, Clone, Copy, PartialEq, Eq, Structural)]
pub struct VkMemoryHeap {
    pub size: VkDeviceSize,
    pub flags: VkMemoryHeapFlags,
}

/// The memory types and heaps of a physical device.
#[derive(Debug, Clone, Copy, PartialEq, Eq)]
pub struct VkPhysicalDeviceMemoryProperties {
    pub memoryTypeCount: u32,
    pub memoryTypes: [VkMemoryType; VK_MAX_MEMORY_TYPES],
    pub memoryHeapCount: u32,
    pub memoryHeaps: [VkMemoryHeap; VK_MAX_MEMORY_HEAPS],
}

/// What memory a buffer needs: bit `i` of `memoryTypeBits` is set when
/// memory type `i` can back it.
#[derive(Debug, Clone, Copy, PartialEq, Eq, Structural)]
pub struct VkMemoryRequirements {
    pub size: VkDeviceSize,
    pub alignment: VkDeviceSize,
    pub memoryTypeBits: u32,
}

/// A byte range copied from one buffer to another.
#[derive(Debug, Clone, Copy, PartialEq, Eq, Structural)]
pub struct VkBufferCopy {
    pub srcOffset: VkDeviceSize,
    pub dstOffset: VkDeviceSize,
    pub size: VkDeviceSize,
}

/// How many descriptors of one type a descriptor pool holds.
#[derive(Debug, Clone, Copy, PartialEq, Eq, Structural)]
pub struct VkDescriptorPoolSize {
    pub descriptorType: VkDescriptorType,
    pub descriptorCount: u32,
}

/// One binding of a descriptor set layout. No immutable samplers.
#[derive(Debug, Clone, Copy, PartialEq, Eq, Structural)]
pub struct VkDescriptorSetLayoutBinding {
    pub binding: u32,
    pub descriptorType: VkDescriptorType,
    pub descriptorCount: u32,
    pub stageFlags: VkShaderStageFlags,
}

/// A byte range of push constants and the stages that read it.
#[derive(Debug, Clone, Copy, PartialEq, Eq, Structural)]
pub struct VkPushConstantRange {
    pub stageFlags: VkShaderStageFlags,
    pub offset: u32,
    pub size: u32,
}

/// The image behind a descriptor.
#[derive(Debug, Clone, Copy, PartialEq, Eq)]
pub struct VkDescriptorImageInfo {
    pub sampler: VkSampler,
    pub imageView: VkImageView,
    pub imageLayout: VkImageLayout,
}

/// The byte range of a buffer behind a descriptor.
#[derive(Debug, Clone, Copy, PartialEq, Eq)]
pub struct VkDescriptorBufferInfo {
    pub buffer: VkBuffer,
    pub offset: VkDeviceSize,
    pub range: VkDeviceSize,
}

/// The application and engine that ask for an instance. Each name is a
/// sequence of bytes that ends with its only zero byte.
#[derive(Debug, Clone, PartialEq, Eq)]
pub struct VkApplicationInfo {
    pub sType: VkStructureType,
    pub applicationName: Vec<u8>,
    pub applicationVersion: u32,
    pub engineName: Vec<u8>,
    pub engineVersion: u32,
    pub apiVersion: u32,
}

/// The request for an instance, without layers or extensions.
#[derive(Debug, Clone, PartialEq, Eq)]
pub struct VkInstanceCreateInfo {
    pub sType: VkStructureType,
    pub flags: VkFlags,
    pub applicationInfo: VkApplicationInfo,
    pub enabledLayerCount: u32,
    pub enabledExtensionCount: u32,
}

/// The queues asked of one family. All of them get the priority whose
/// IEEE 754 single-precision bit pattern is `queuePriorityBits`.
#[derive(Debug, Clone, Copy, PartialEq, Eq, Structural)]
pub struct VkDeviceQueueCreateInfo {
    pub sType: VkStructureType,
    pub flags: VkFlags,
    pub queueFamilyIndex: u32,
    pub queueCount: u32,
    pub queuePriorityBits: u32,
}

/// The request for a logical device with the queues of one family,
/// without layers, extensions or optional features.
#[derive(Debug, Clone, Copy, PartialEq, Eq, Structural)]
pub struct VkDeviceCreateInfo {
    pub sType: VkStructureType,
    pub flags: VkDeviceCreateFlags,
    pub queueCreateInfoCount: u32,
    pub queueCreateInfo: VkDeviceQueueCreateInfo,
    pub enabledLayerCount: u32,
    pub enabledExtensionCount: u32,
}

/// The request for a command pool.
#[derive(Debug, Clone, Copy, PartialEq, Eq, Structural)]
pub struct VkCommandPoolCreateInfo {
    pub sType: VkStructureType,
    pub flags: VkCommandPoolCreateFlags,
    pub queueFamilyIndex: u32,
}

/// The request for a buffer.
#[derive(Debug, Clone, Copy, PartialEq, Eq, Structural)]
pub struct VkBufferCreateInfo {
    pub sType: VkStructureType,
    pub flags: VkBufferCreateFlags,
    pub size: VkDeviceSize,
    pub usage: VkBufferUsageFlags,
    pub sharingMode: VkSharingMode,
    pub queueFamilyIndexCount: u32,
}

/// The request for device memory.
#[derive(Debug, Clone, Copy, PartialEq, Eq, Structural)]
pub struct VkMemoryAllocateInfo {
    pub sType: VkStructureType,
    pub allocationSize: VkDeviceSize,
    pub memoryTypeIndex: u32,
}

/// A byte range of mapped device memory.
#[derive(Debug, Clone, Copy, PartialEq, Eq)]
pub struct VkMappedMemoryRange {
    pub sType: VkStructureType,
    pub memory: VkDeviceMemory,
    pub offset: VkDeviceSize,
    pub size: VkDeviceSize,
}

/// The request for command buffers from a pool.
#[derive(Debug, Clone, Copy, PartialEq, Eq)]
pub struct VkCommandBufferAllocateInfo {
    pub sType: VkStructureType,
    pub commandPool: VkCommandPool,
    pub level: VkCommandBufferLevel,
    pub commandBufferCount: u32,
}

/// How the recording of a primary command buffer begins.
#[derive(Debug, Clone, Copy, PartialEq, Eq, Structural)]
pub struct VkCommandBufferBeginInfo {
    pub sType: VkStructureType,
    pub flags: VkCommandBufferUsageFlags,
}

/// The request for a fence.
#[derive(Debug, Clone, Copy, PartialEq, Eq, Structural)]
pub struct VkFenceCreateInfo {
    pub sType: VkStructureType,
    pub flags: VkFenceCreateFlags,
}

/// One command buffer handed to a queue, without semaphores. Where
/// `waitDstStageMask` is given, it names the stages that wait.
#[derive(Debug, Clone, Copy, PartialEq, Eq)]
pub struct VkSubmitInfo {
    pub sType: VkStructureType,
    pub waitSemaphoreCount: u32,
    pub waitDstStageMask: Option<VkPipelineStageFlags>,
    pub commandBufferCount: u32,
    pub commandBuffer: VkCommandBuffer,
    pub signalSemaphoreCount: u32,
}

/// The request for a descriptor pool that holds descriptors of one type.
#[derive(Debug, Clone, Copy, PartialEq, Eq, Structural)]
pub struct VkDescriptorPoolCreateInfo {
    pub sType: VkStructureType,
    pub flags: VkDescriptorPoolCreateFlags,
    pub maxSets: u32,
    pub poolSizeCount: u32,
    pub poolSize: VkDescriptorPoolSize,
}

/// The request for a descriptor set layout.
#[derive(Debug, Clone, PartialEq, Eq)]
pub struct VkDescriptorSetLayoutCreateInfo {
    pub sType: VkStructureType,
    pub flags: VkDescriptorSetLayoutCreateFlags,
    pub bindings: Vec<VkDescriptorSetLayoutBinding>,
}

/// The request for a pipeline layout with one descriptor set layout and
/// at most one push-constant range.
#[derive(Debug, Clone, Copy, PartialEq, Eq)]
pub struct VkPipelineLayoutCreateInfo {
    pub sType: VkStructureType,
    pub flags: VkPipelineLayoutCreateFlags,
    pub setLayoutCount: u32,
    pub setLayout: VkDescriptorSetLayout,
    pub pushConstantRange: Option<VkPushConstantRange>,
}

/// The request for one descriptor set from a pool.
#[derive(Debug, Clone, Copy, PartialEq, Eq)]
pub struct VkDescriptorSetAllocateInfo {
    pub sType: VkStructureType,
    pub descriptorPool: VkDescriptorPool,
    pub descriptorSetCount: u32,
    pub setLayout: VkDescriptorSetLayout,
}

/// One buffer descriptor written into a descriptor set.
#[derive(Debug, Clone, Copy, PartialEq, Eq)]
pub struct VkWriteDescriptorSet {
    pub sType: VkStructureType,
    pub dstSet: VkDescriptorSet,
    pub dstBinding: u32,
    pub dstArrayElement: u32,
    pub descriptorCount: u32,
    pub descriptorType: VkDescriptorType,
    pub bufferInfo: VkDescriptorBufferInfo,
}

/// The request for a pipeline cache without initial data.
#[derive(Debug, Clone, Copy, PartialEq, Eq, Structural)]
pub struct VkPipelineCacheCreateInfo {
    pub sType: VkStructureType,
    pub flags: VkPipelineCacheCreateFlags,
    pub initialDataSize: size_t,
}

/// Where the value of one specialization constant lies in the data.
#[derive(Debug, Clone, Copy, PartialEq, Eq, Structural)]
pub struct VkSpecializationMapEntry {
    pub constantID: u32,
    pub offset: u32,
    pub size: size_t,
}

/// The values of a shader's specialization constants.
#[derive(Debug, Clone, PartialEq, Eq)]
pub struct VkSpecializationInfo {
    pub mapEntries: Vec<VkSpecializationMapEntry>,
    pub data: Vec<u8>,
}

/// One shader stage of a pipeline. `name` is the entry point, a sequence
/// of bytes that ends with its only zero byte.
#[derive(Debug, Clone, PartialEq, Eq)]
pub struct VkPipelineShaderStageCreateInfo {
    pub sType: VkStructureType,
    pub flags: VkPipelineShaderStageCreateFlags,
    pub stage: VkShaderStageFlagBits,
    pub module: VkShaderModule,
    pub name: Vec<u8>,
    pub specializationInfo: VkSpecializationInfo,
}

/// The request for a compute pipeline.
#[derive(Debug, Clone, PartialEq, Eq)]
pub struct VkComputePipelineCreateInfo {
    pub sType: VkStructureType,
    pub flags: VkPipelineCreateFlags,
    pub stage: VkPipelineShaderStageCreateInfo,
    pub layout: VkPipelineLayout,
    pub basePipelineHandle: VkPipeline,
    pub basePipelineIndex: i32,
}

/// The request for a shader module: `code` holds `codeSize` bytes of SPIR-V.
#[derive(Debug, Clone, PartialEq, Eq)]
pub struct VkShaderModuleCreateInfo {
    pub sType: VkStructureType,
    pub flags: VkShaderModuleCreateFlags,
    pub codeSize: size_t,
    pub code: Vec<u8>,
}

/// A barrier that orders accesses to a byte range of a buffer.
#[derive(Debug, Clone, Copy, PartialEq, Eq)]
pub struct VkBufferMemoryBarrier {
    pub sType: VkStructureType,
    pub srcAccessMask: VkAccessFlags,
    pub dstAccessMask: VkAccessFlags,
    pub srcQueueFamilyIndex: u32,
    pub dstQueueFamilyIndex: u32,
    pub buffer: VkBuffer,
    pub offset: VkDeviceSize,
    pub size: VkDeviceSize,
}

} // verus!
