use vstd::prelude::*;

verus! {

/// Status code returned by a driver entry point.
#[derive(Debug, Clone, Copy, PartialEq, Eq, Structural)]
pub enum VkResult {
    VK_SUCCESS,
    VK_NOT_READY,
    VK_TIMEOUT,
    VK_EVENT_SET,
    VK_EVENT_RESET,
    VK_INCOMPLETE,
    VK_ERROR_OUT_OF_HOST_MEMORY,
    VK_ERROR_OUT_OF_DEVICE_MEMORY,
    VK_ERROR_INITIALIZATION_FAILED,
    VK_ERROR_DEVICE_LOST,
    VK_ERROR_MEMORY_MAP_FAILED,
    VK_ERROR_LAYER_NOT_PRESENT,
    VK_ERROR_EXTENSION_NOT_PRESENT,
    VK_ERROR_FEATURE_NOT_PRESENT,
    VK_ERROR_INCOMPATIBLE_DRIVER,
    VK_ERROR_TOO_MANY_OBJECTS,
    VK_ERROR_FORMAT_NOT_SUPPORTED,
    VK_ERROR_FRAGMENTED_POOL,
    VK_ERROR_OUT_OF_POOL_MEMORY,
    VK_ERROR_INVALID_EXTERNAL_HANDLE,
    VK_ERROR_SURFACE_LOST_KHR,
    VK_ERROR_NATIVE_WINDOW_IN_USE_KHR,
    VK_SUBOPTIMAL_KHR,
    VK_ERROR_OUT_OF_DATE_KHR,
    VK_ERROR_INCOMPATIBLE_DISPLAY_KHR,
    VK_ERROR_VALIDATION_FAILED_EXT,
    VK_ERROR_INVALID_SHADER_NV,
    VK_ERROR_INVALID_DRM_FORMAT_MODIFIER_PLANE_LAYOUT_EXT,
    VK_ERROR_FRAGMENTATION_EXT,
    VK_ERROR_NOT_PERMITTED_EXT,
    VK_ERROR_INVALID_DEVICE_ADDRESS_EXT,
    VK_ERROR_FULL_SCREEN_EXCLUSIVE_MODE_LOST_EXT,
    VK_RESULT_MAX_ENUM,
}

impl VkResult {
    /// The number that the driver uses for this variant.
    pub open spec fn spec_value(self) -> i32 {
        match self {
            VkResult::VK_SUCCESS => 0i32,
            VkResult::VK_NOT_READY => 1i32,
            VkResult::VK_TIMEOUT => 2i32,
            VkResult::VK_EVENT_SET => 3i32,
            VkResult::VK_EVENT_RESET => 4i32,
            VkResult::VK_INCOMPLETE => 5i32,
            VkResult::VK_ERROR_OUT_OF_HOST_MEMORY => -1i32,
            VkResult::VK_ERROR_OUT_OF_DEVICE_MEMORY => -2i32,
            VkResult::VK_ERROR_INITIALIZATION_FAILED => -3i32,
            VkResult::VK_ERROR_DEVICE_LOST => -4i32,
            VkResult::VK_ERROR_MEMORY_MAP_FAILED => -5i32,
            VkResult::VK_ERROR_LAYER_NOT_PRESENT => -6i32,
            VkResult::VK_ERROR_EXTENSION_NOT_PRESENT => -7i32,
            VkResult::VK_ERROR_FEATURE_NOT_PRESENT => -8i32,
            VkResult::VK_ERROR_INCOMPATIBLE_DRIVER => -9i32,
            VkResult::VK_ERROR_TOO_MANY_OBJECTS => -10i32,
            VkResult::VK_ERROR_FORMAT_NOT_SUPPORTED => -11i32,
            VkResult::VK_ERROR_FRAGMENTED_POOL => -12i32,
            VkResult::VK_ERROR_OUT_OF_POOL_MEMORY => -1000069000i32,
            VkResult::VK_ERROR_INVALID_EXTERNAL_HANDLE => -1000072003i32,
            VkResult::VK_ERROR_SURFACE_LOST_KHR => -1000000000i32,
            VkResult::VK_ERROR_NATIVE_WINDOW_IN_USE_KHR => -1000000001i32,
            VkResult::VK_SUBOPTIMAL_KHR => 1000001003i32,
            VkResult::VK_ERROR_OUT_OF_DATE_KHR => -1000001004i32,
            VkResult::VK_ERROR_INCOMPATIBLE_DISPLAY_KHR => -1000003001i32,
            VkResult::VK_ERROR_VALIDATION_FAILED_EXT => -1000011001i32,
            VkResult::VK_ERROR_INVALID_SHADER_NV => -1000012000i32,
            VkResult::VK_ERROR_INVALID_DRM_FORMAT_MODIFIER_PLANE_LAYOUT_EXT => -1000158000i32,
            VkResult::VK_ERROR_FRAGMENTATION_EXT => -1000161000i32,
            VkResult::VK_ERROR_NOT_PERMITTED_EXT => -1000174001i32,
            VkResult::VK_ERROR_INVALID_DEVICE_ADDRESS_EXT => -1000244000i32,
            VkResult::VK_ERROR_FULL_SCREEN_EXCLUSIVE_MODE_LOST_EXT => -1000255000i32,
            VkResult::VK_RESULT_MAX_ENUM => 0x7FFFFFFFi32,
        }
    }

    /// The number that the driver uses for this variant.
    #[verifier::when_used_as_spec(spec_value)]
    pub fn value(self) -> (r: i32)
        ensures
            r == self.spec_value(),
    {
        match self {
            VkResult::VK_SUCCESS => 0i32,
            VkResult::VK_NOT_READY => 1i32,
            VkResult::VK_TIMEOUT => 2i32,
            VkResult::VK_EVENT_SET => 3i32,
            VkResult::VK_EVENT_RESET => 4i32,
            VkResult::VK_INCOMPLETE => 5i32,
            VkResult::VK_ERROR_OUT_OF_HOST_MEMORY => -1i32,
            VkResult::VK_ERROR_OUT_OF_DEVICE_MEMORY => -2i32,
            VkResult::VK_ERROR_INITIALIZATION_FAILED => -3i32,
            VkResult::VK_ERROR_DEVICE_LOST => -4i32,
            VkResult::VK_ERROR_MEMORY_MAP_FAILED => -5i32,
            VkResult::VK_ERROR_LAYER_NOT_PRESENT => -6i32,
            VkResult::VK_ERROR_EXTENSION_NOT_PRESENT => -7i32,
            VkResult::VK_ERROR_FEATURE_NOT_PRESENT => -8i32,
            VkResult::VK_ERROR_INCOMPATIBLE_DRIVER => -9i32,
            VkResult::VK_ERROR_TOO_MANY_OBJECTS => -10i32,
            VkResult::VK_ERROR_FORMAT_NOT_SUPPORTED => -11i32,
            VkResult::VK_ERROR_FRAGMENTED_POOL => -12i32,
            VkResult::VK_ERROR_OUT_OF_POOL_MEMORY => -1000069000i32,
            VkResult::VK_ERROR_INVALID_EXTERNAL_HANDLE => -1000072003i32,
            VkResult::VK_ERROR_SURFACE_LOST_KHR => -1000000000i32,
            VkResult::VK_ERROR_NATIVE_WINDOW_IN_USE_KHR => -1000000001i32,
            VkResult::VK_SUBOPTIMAL_KHR => 1000001003i32,
            VkResult::VK_ERROR_OUT_OF_DATE_KHR => -1000001004i32,
            VkResult::VK_ERROR_INCOMPATIBLE_DISPLAY_KHR => -1000003001i32,
            VkResult::VK_ERROR_VALIDATION_FAILED_EXT => -1000011001i32,
            VkResult::VK_ERROR_INVALID_SHADER_NV => -1000012000i32,
            VkResult::VK_ERROR_INVALID_DRM_FORMAT_MODIFIER_PLANE_LAYOUT_EXT => -1000158000i32,
            VkResult::VK_ERROR_FRAGMENTATION_EXT => -1000161000i32,
            VkResult::VK_ERROR_NOT_PERMITTED_EXT => -1000174001i32,
            VkResult::VK_ERROR_INVALID_DEVICE_ADDRESS_EXT => -1000244000i32,
            VkResult::VK_ERROR_FULL_SCREEN_EXCLUSIVE_MODE_LOST_EXT => -1000255000i32,
            VkResult::VK_RESULT_MAX_ENUM => 0x7FFFFFFFi32,
        }
    }
}

impl VkResult {
    /// The status that the driver means by the number `value`, if it means
    /// one: the inverse of `value`.
    pub fn from_value(value: i32) -> (r: Option<VkResult>)
        ensures
            match r {
                Some(status) => status.value() == value,
                None => forall|status: VkResult| status.value() != value,
            },
    {
        if value == 0i32 {
            Some(VkResult::VK_SUCCESS)
        } else if value == 1i32 {
            Some(VkResult::VK_NOT_READY)
        } else if value == 2i32 {
            Some(VkResult::VK_TIMEOUT)
        } else if value == 3i32 {
            Some(VkResult::VK_EVENT_SET)
        } else if value == 4i32 {
            Some(VkResult::VK_EVENT_RESET)
        } else if value == 5i32 {
            Some(VkResult::VK_INCOMPLETE)
        } else if value == -1i32 {
            Some(VkResult::VK_ERROR_OUT_OF_HOST_MEMORY)
        } else if value == -2i32 {
            Some(VkResult::VK_ERROR_OUT_OF_DEVICE_MEMORY)
        } else if value == -3i32 {
            Some(VkResult::VK_ERROR_INITIALIZATION_FAILED)
        } else if value == -4i32 {
            Some(VkResult::VK_ERROR_DEVICE_LOST)
        } else if value == -5i32 {
            Some(VkResult::VK_ERROR_MEMORY_MAP_FAILED)
        } else if value == -6i32 {
            Some(VkResult::VK_ERROR_LAYER_NOT_PRESENT)
        } else if value == -7i32 {
            Some(VkResult::VK_ERROR_EXTENSION_NOT_PRESENT)
        } else if value == -8i32 {
            Some(VkResult::VK_ERROR_FEATURE_NOT_PRESENT)
        } else if value == -9i32 {
            Some(VkResult::VK_ERROR_INCOMPATIBLE_DRIVER)
        } else if value == -10i32 {
            Some(VkResult::VK_ERROR_TOO_MANY_OBJECTS)
        } else if value == -11i32 {
            Some(VkResult::VK_ERROR_FORMAT_NOT_SUPPORTED)
        } else if value == -12i32 {
            Some(VkResult::VK_ERROR_FRAGMENTED_POOL)
        } else if value == -1000069000i32 {
            Some(VkResult::VK_ERROR_OUT_OF_POOL_MEMORY)
        } else if value == -1000072003i32 {
            Some(VkResult::VK_ERROR_INVALID_EXTERNAL_HANDLE)
        } else if value == -1000000000i32 {
            Some(VkResult::VK_ERROR_SURFACE_LOST_KHR)
        } else if value == -1000000001i32 {
            Some(VkResult::VK_ERROR_NATIVE_WINDOW_IN_USE_KHR)
        } else if value == 1000001003i32 {
            Some(VkResult::VK_SUBOPTIMAL_KHR)
        } else if value == -1000001004i32 {
            Some(VkResult::VK_ERROR_OUT_OF_DATE_KHR)
        } else if value == -1000003001i32 {
            Some(VkResult::VK_ERROR_INCOMPATIBLE_DISPLAY_KHR)
        } else if value == -1000011001i32 {
            Some(VkResult::VK_ERROR_VALIDATION_FAILED_EXT)
        } else if value == -1000012000i32 {
            Some(VkResult::VK_ERROR_INVALID_SHADER_NV)
        } else if value == -1000158000i32 {
            Some(VkResult::VK_ERROR_INVALID_DRM_FORMAT_MODIFIER_PLANE_LAYOUT_EXT)
        } else if value == -1000161000i32 {
            Some(VkResult::VK_ERROR_FRAGMENTATION_EXT)
        } else if value == -1000174001i32 {
            Some(VkResult::VK_ERROR_NOT_PERMITTED_EXT)
        } else if value == -1000244000i32 {
            Some(VkResult::VK_ERROR_INVALID_DEVICE_ADDRESS_EXT)
        } else if value == -1000255000i32 {
            Some(VkResult::VK_ERROR_FULL_SCREEN_EXCLUSIVE_MODE_LOST_EXT)
        } else if value == 0x7FFFFFFFi32 {
            Some(VkResult::VK_RESULT_MAX_ENUM)
        } else {
            None
        }
    }

    /// The status that the number `value` of the driver is taken as: the
    /// status that it means, and `VK_RESULT_MAX_ENUM`, which is not
    /// success, for a number that means none.
    pub fn decode(value: i32) -> (r: VkResult)
        ensures
            r.value() == value || (r == VkResult::VK_RESULT_MAX_ENUM && forall|status: VkResult|
                status.value() != value),
            r == VkResult::VK_SUCCESS <==> value == 0,
    {
        assert(VkResult::VK_SUCCESS.value() == 0);
        match Self::from_value(value) {
            Some(status) => status,
            None => VkResult::VK_RESULT_MAX_ENUM,
        }
    }
}

/// How a buffer is shared between queue families.
#[derive(Debug, Clone, Copy, PartialEq, Eq, Structural)]
pub enum VkSharingMode {
    VK_SHARING_MODE_EXCLUSIVE,
    VK_SHARING_MODE_CONCURRENT,
    VK_SHARING_MODE_MAX_ENUM,
}

impl VkSharingMode {
    /// The number that the driver uses for this variant.
    pub open spec fn spec_value(self) -> i32 {
        match self {
            VkSharingMode::VK_SHARING_MODE_EXCLUSIVE => 0i32,
            VkSharingMode::VK_SHARING_MODE_CONCURRENT => 1i32,
            VkSharingMode::VK_SHARING_MODE_MAX_ENUM => 0x7FFFFFFFi32,
        }
    }

    /// The number that the driver uses for this variant.
    #[verifier::when_used_as_spec(spec_value)]
    pub fn value(self) -> (r: i32)
        ensures
            r == self.spec_value(),
    {
        match self {
            VkSharingMode::VK_SHARING_MODE_EXCLUSIVE => 0i32,
            VkSharingMode::VK_SHARING_MODE_CONCURRENT => 1i32,
            VkSharingMode::VK_SHARING_MODE_MAX_ENUM => 0x7FFFFFFFi32,
        }
    }
}

/// Tag that identifies the kind of a driver structure.
#[derive(Debug, Clone, Copy, PartialEq, Eq, Structural)]
pub enum VkStructureType {
    VK_STRUCTURE_TYPE_APPLICATION_INFO,
    VK_STRUCTURE_TYPE_INSTANCE_CREATE_INFO,
    VK_STRUCTURE_TYPE_DEVICE_QUEUE_CREATE_INFO,
    VK_STRUCTURE_TYPE_DEVICE_CREATE_INFO,
    VK_STRUCTURE_TYPE_SUBMIT_INFO,
    VK_STRUCTURE_TYPE_MEMORY_ALLOCATE_INFO,
    VK_STRUCTURE_TYPE_MAPPED_MEMORY_RANGE,
    VK_STRUCTURE_TYPE_BIND_SPARSE_INFO,
    VK_STRUCTURE_TYPE_FENCE_CREATE_INFO,
    VK_STRUCTURE_TYPE_SEMAPHORE_CREATE_INFO,
    VK_STRUCTURE_TYPE_EVENT_CREATE_INFO,
    VK_STRUCTURE_TYPE_QUERY_POOL_CREATE_INFO,
    VK_STRUCTURE_TYPE_BUFFER_CREATE_INFO,
    VK_STRUCTURE_TYPE_BUFFER_VIEW_CREATE_INFO,
    VK_STRUCTURE_TYPE_IMAGE_CREATE_INFO,
    VK_STRUCTURE_TYPE_IMAGE_VIEW_CREATE_INFO,
    VK_STRUCTURE_TYPE_SHADER_MODULE_CREATE_INFO,
    VK_STRUCTURE_TYPE_PIPELINE_CACHE_CREATE_INFO,
    VK_STRUCTURE_TYPE_PIPELINE_SHADER_STAGE_CREATE_INFO,
    VK_STRUCTURE_TYPE_PIPELINE_VERTEX_INPUT_STATE_CREATE_INFO,
    VK_STRUCTURE_TYPE_PIPELINE_INPUT_ASSEMBLY_STATE_CREATE_INFO,
    VK_STRUCTURE_TYPE_PIPELINE_TESSELLATION_STATE_CREATE_INFO,
    VK_STRUCTURE_TYPE_PIPELINE_VIEWPORT_STATE_CREATE_INFO,
    VK_STRUCTURE_TYPE_PIPELINE_RASTERIZATION_STATE_CREATE_INFO,
    VK_STRUCTURE_TYPE_PIPELINE_MULTISAMPLE_STATE_CREATE_INFO,
    VK_STRUCTURE_TYPE_PIPELINE_DEPTH_STENCIL_STATE_CREATE_INFO,
    VK_STRUCTURE_TYPE_PIPELINE_COLOR_BLEND_STATE_CREATE_INFO,
    VK_STRUCTURE_TYPE_PIPELINE_DYNAMIC_STATE_CREATE_INFO,
    VK_STRUCTURE_TYPE_GRAPHICS_PIPELINE_CREATE_INFO,
    VK_STRUCTURE_TYPE_COMPUTE_PIPELINE_CREATE_INFO,
    VK_STRUCTURE_TYPE_PIPELINE_LAYOUT_CREATE_INFO,
    VK_STRUCTURE_TYPE_SAMPLER_CREATE_INFO,
    VK_STRUCTURE_TYPE_DESCRIPTOR_SET_LAYOUT_CREATE_INFO,
    VK_STRUCTURE_TYPE_DESCRIPTOR_POOL_CREATE_INFO,
    VK_STRUCTURE_TYPE_DESCRIPTOR_SET_ALLOCATE_INFO,
    VK_STRUCTURE_TYPE_WRITE_DESCRIPTOR_SET,
    VK_STRUCTURE_TYPE_COPY_DESCRIPTOR_SET,
    VK_STRUCTURE_TYPE_FRAMEBUFFER_CREATE_INFO,
    VK_STRUCTURE_TYPE_RENDER_PASS_CREATE_INFO,
    VK_STRUCTURE_TYPE_COMMAND_POOL_CREATE_INFO,
    VK_STRUCTURE_TYPE_COMMAND_BUFFER_ALLOCATE_INFO,
    VK_STRUCTURE_TYPE_COMMAND_BUFFER_INHERITANCE_INFO,
    VK_STRUCTURE_TYPE_COMMAND_BUFFER_BEGIN_INFO,
    VK_STRUCTURE_TYPE_RENDER_PASS_BEGIN_INFO,
    VK_STRUCTURE_TYPE_BUFFER_MEMORY_BARRIER,
    VK_STRUCTURE_TYPE_IMAGE_MEMORY_BARRIER,
    VK_STRUCTURE_TYPE_MEMORY_BARRIER,
    VK_STRUCTURE_TYPE_LOADER_INSTANCE_CREATE_INFO,
    VK_STRUCTURE_TYPE_LOADER_DEVICE_CREATE_INFO,
}

impl VkStructureType {
    /// The number that the driver uses for this variant.
    pub open spec fn spec_value(self) -> i32 {
        match self {
            VkStructureType::VK_STRUCTURE_TYPE_APPLICATION_INFO => 0i32,
            VkStructureType::VK_STRUCTURE_TYPE_INSTANCE_CREATE_INFO => 1i32,
            VkStructureType::VK_STRUCTURE_TYPE_DEVICE_QUEUE_CREATE_INFO => 2i32,
            VkStructureType::VK_STRUCTURE_TYPE_DEVICE_CREATE_INFO => 3i32,
            VkStructureType::VK_STRUCTURE_TYPE_SUBMIT_INFO => 4i32,
            VkStructureType::VK_STRUCTURE_TYPE_MEMORY_ALLOCATE_INFO => 5i32,
            VkStructureType::VK_STRUCTURE_TYPE_MAPPED_MEMORY_RANGE => 6i32,
            VkStructureType::VK_STRUCTURE_TYPE_BIND_SPARSE_INFO => 7i32,
            VkStructureType::VK_STRUCTURE_TYPE_FENCE_CREATE_INFO => 8i32,
            VkStructureType::VK_STRUCTURE_TYPE_SEMAPHORE_CREATE_INFO => 9i32,
            VkStructureType::VK_STRUCTURE_TYPE_EVENT_CREATE_INFO => 10i32,
            VkStructureType::VK_STRUCTURE_TYPE_QUERY_POOL_CREATE_INFO => 11i32,
            VkStructureType::VK_STRUCTURE_TYPE_BUFFER_CREATE_INFO => 12i32,
            VkStructureType::VK_STRUCTURE_TYPE_BUFFER_VIEW_CREATE_INFO => 13i32,
            VkStructureType::VK_STRUCTURE_TYPE_IMAGE_CREATE_INFO => 14i32,
            VkStructureType::VK_STRUCTURE_TYPE_IMAGE_VIEW_CREATE_INFO => 15i32,
            VkStructureType::VK_STRUCTURE_TYPE_SHADER_MODULE_CREATE_INFO => 16i32,
            VkStructureType::VK_STRUCTURE_TYPE_PIPELINE_CACHE_CREATE_INFO => 17i32,
            VkStructureType::VK_STRUCTURE_TYPE_PIPELINE_SHADER_STAGE_CREATE_INFO => 18i32,
            VkStructureType::VK_STRUCTURE_TYPE_PIPELINE_VERTEX_INPUT_STATE_CREATE_INFO => 19i32,
            VkStructureType::VK_STRUCTURE_TYPE_PIPELINE_INPUT_ASSEMBLY_STATE_CREATE_INFO => 20i32,
            VkStructureType::VK_STRUCTURE_TYPE_PIPELINE_TESSELLATION_STATE_CREATE_INFO => 21i32,
            VkStructureType::VK_STRUCTURE_TYPE_PIPELINE_VIEWPORT_STATE_CREATE_INFO => 22i32,
            VkStructureType::VK_STRUCTURE_TYPE_PIPELINE_RASTERIZATION_STATE_CREATE_INFO => 23i32,
            VkStructureType::VK_STRUCTURE_TYPE_PIPELINE_MULTISAMPLE_STATE_CREATE_INFO => 24i32,
            VkStructureType::VK_STRUCTURE_TYPE_PIPELINE_DEPTH_STENCIL_STATE_CREATE_INFO => 25i32,
            VkStructureType::VK_STRUCTURE_TYPE_PIPELINE_COLOR_BLEND_STATE_CREATE_INFO => 26i32,
            VkStructureType::VK_STRUCTURE_TYPE_PIPELINE_DYNAMIC_STATE_CREATE_INFO => 27i32,
            VkStructureType::VK_STRUCTURE_TYPE_GRAPHICS_PIPELINE_CREATE_INFO => 28i32,
            VkStructureType::VK_STRUCTURE_TYPE_COMPUTE_PIPELINE_CREATE_INFO => 29i32,
            VkStructureType::VK_STRUCTURE_TYPE_PIPELINE_LAYOUT_CREATE_INFO => 30i32,
            VkStructureType::VK_STRUCTURE_TYPE_SAMPLER_CREATE_INFO => 31i32,
            VkStructureType::VK_STRUCTURE_TYPE_DESCRIPTOR_SET_LAYOUT_CREATE_INFO => 32i32,
            VkStructureType::VK_STRUCTURE_TYPE_DESCRIPTOR_POOL_CREATE_INFO => 33i32,
            VkStructureType::VK_STRUCTURE_TYPE_DESCRIPTOR_SET_ALLOCATE_INFO => 34i32,
            VkStructureType::VK_STRUCTURE_TYPE_WRITE_DESCRIPTOR_SET => 35i32,
            VkStructureType::VK_STRUCTURE_TYPE_COPY_DESCRIPTOR_SET => 36i32,
            VkStructureType::VK_STRUCTURE_TYPE_FRAMEBUFFER_CREATE_INFO => 37i32,
            VkStructureType::VK_STRUCTURE_TYPE_RENDER_PASS_CREATE_INFO => 38i32,
            VkStructureType::VK_STRUCTURE_TYPE_COMMAND_POOL_CREATE_INFO => 39i32,
            VkStructureType::VK_STRUCTURE_TYPE_COMMAND_BUFFER_ALLOCATE_INFO => 40i32,
            VkStructureType::VK_STRUCTURE_TYPE_COMMAND_BUFFER_INHERITANCE_INFO => 41i32,
            VkStructureType::VK_STRUCTURE_TYPE_COMMAND_BUFFER_BEGIN_INFO => 42i32,
            VkStructureType::VK_STRUCTURE_TYPE_RENDER_PASS_BEGIN_INFO => 43i32,
            VkStructureType::VK_STRUCTURE_TYPE_BUFFER_MEMORY_BARRIER => 44i32,
            VkStructureType::VK_STRUCTURE_TYPE_IMAGE_MEMORY_BARRIER => 45i32,
            VkStructureType::VK_STRUCTURE_TYPE_MEMORY_BARRIER => 46i32,
            VkStructureType::VK_STRUCTURE_TYPE_LOADER_INSTANCE_CREATE_INFO => 47i32,
            VkStructureType::VK_STRUCTURE_TYPE_LOADER_DEVICE_CREATE_INFO => 48i32,
        }
    }

    /// The number that the driver uses for this variant.
    #[verifier::when_used_as_spec(spec_value)]
    pub fn value(self) -> (r: i32)
        ensures
            r == self.spec_value(),
    {
        match self {
            VkStructureType::VK_STRUCTURE_TYPE_APPLICATION_INFO => 0i32,
            VkStructureType::VK_STRUCTURE_TYPE_INSTANCE_CREATE_INFO => 1i32,
            VkStructureType::VK_STRUCTURE_TYPE_DEVICE_QUEUE_CREATE_INFO => 2i32,
            VkStructureType::VK_STRUCTURE_TYPE_DEVICE_CREATE_INFO => 3i32,
            VkStructureType::VK_STRUCTURE_TYPE_SUBMIT_INFO => 4i32,
            VkStructureType::VK_STRUCTURE_TYPE_MEMORY_ALLOCATE_INFO => 5i32,
            VkStructureType::VK_STRUCTURE_TYPE_MAPPED_MEMORY_RANGE => 6i32,
            VkStructureType::VK_STRUCTURE_TYPE_BIND_SPARSE_INFO => 7i32,
            VkStructureType::VK_STRUCTURE_TYPE_FENCE_CREATE_INFO => 8i32,
            VkStructureType::VK_STRUCTURE_TYPE_SEMAPHORE_CREATE_INFO => 9i32,
            VkStructureType::VK_STRUCTURE_TYPE_EVENT_CREATE_INFO => 10i32,
            VkStructureType::VK_STRUCTURE_TYPE_QUERY_POOL_CREATE_INFO => 11i32,
            VkStructureType::VK_STRUCTURE_TYPE_BUFFER_CREATE_INFO => 12i32,
            VkStructureType::VK_STRUCTURE_TYPE_BUFFER_VIEW_CREATE_INFO => 13i32,
            VkStructureType::VK_STRUCTURE_TYPE_IMAGE_CREATE_INFO => 14i32,
            VkStructureType::VK_STRUCTURE_TYPE_IMAGE_VIEW_CREATE_INFO => 15i32,
            VkStructureType::VK_STRUCTURE_TYPE_SHADER_MODULE_CREATE_INFO => 16i32,
            VkStructureType::VK_STRUCTURE_TYPE_PIPELINE_CACHE_CREATE_INFO => 17i32,
            VkStructureType::VK_STRUCTURE_TYPE_PIPELINE_SHADER_STAGE_CREATE_INFO => 18i32,
            VkStructureType::VK_STRUCTURE_TYPE_PIPELINE_VERTEX_INPUT_STATE_CREATE_INFO => 19i32,
            VkStructureType::VK_STRUCTURE_TYPE_PIPELINE_INPUT_ASSEMBLY_STATE_CREATE_INFO => 20i32,
            VkStructureType::VK_STRUCTURE_TYPE_PIPELINE_TESSELLATION_STATE_CREATE_INFO => 21i32,
            VkStructureType::VK_STRUCTURE_TYPE_PIPELINE_VIEWPORT_STATE_CREATE_INFO => 22i32,
            VkStructureType::VK_STRUCTURE_TYPE_PIPELINE_RASTERIZATION_STATE_CREATE_INFO => 23i32,
            VkStructureType::VK_STRUCTURE_TYPE_PIPELINE_MULTISAMPLE_STATE_CREATE_INFO => 24i32,
            VkStructureType::VK_STRUCTURE_TYPE_PIPELINE_DEPTH_STENCIL_STATE_CREATE_INFO => 25i32,
            VkStructureType::VK_STRUCTURE_TYPE_PIPELINE_COLOR_BLEND_STATE_CREATE_INFO => 26i32,
            VkStructureType::VK_STRUCTURE_TYPE_PIPELINE_DYNAMIC_STATE_CREATE_INFO => 27i32,
            VkStructureType::VK_STRUCTURE_TYPE_GRAPHICS_PIPELINE_CREATE_INFO => 28i32,
            VkStructureType::VK_STRUCTURE_TYPE_COMPUTE_PIPELINE_CREATE_INFO => 29i32,
            VkStructureType::VK_STRUCTURE_TYPE_PIPELINE_LAYOUT_CREATE_INFO => 30i32,
            VkStructureType::VK_STRUCTURE_TYPE_SAMPLER_CREATE_INFO => 31i32,
            VkStructureType::VK_STRUCTURE_TYPE_DESCRIPTOR_SET_LAYOUT_CREATE_INFO => 32i32,
            VkStructureType::VK_STRUCTURE_TYPE_DESCRIPTOR_POOL_CREATE_INFO => 33i32,
            VkStructureType::VK_STRUCTURE_TYPE_DESCRIPTOR_SET_ALLOCATE_INFO => 34i32,
            VkStructureType::VK_STRUCTURE_TYPE_WRITE_DESCRIPTOR_SET => 35i32,
            VkStructureType::VK_STRUCTURE_TYPE_COPY_DESCRIPTOR_SET => 36i32,
            VkStructureType::VK_STRUCTURE_TYPE_FRAMEBUFFER_CREATE_INFO => 37i32,
            VkStructureType::VK_STRUCTURE_TYPE_RENDER_PASS_CREATE_INFO => 38i32,
            VkStructureType::VK_STRUCTURE_TYPE_COMMAND_POOL_CREATE_INFO => 39i32,
            VkStructureType::VK_STRUCTURE_TYPE_COMMAND_BUFFER_ALLOCATE_INFO => 40i32,
            VkStructureType::VK_STRUCTURE_TYPE_COMMAND_BUFFER_INHERITANCE_INFO => 41i32,
            VkStructureType::VK_STRUCTURE_TYPE_COMMAND_BUFFER_BEGIN_INFO => 42i32,
            VkStructureType::VK_STRUCTURE_TYPE_RENDER_PASS_BEGIN_INFO => 43i32,
            VkStructureType::VK_STRUCTURE_TYPE_BUFFER_MEMORY_BARRIER => 44i32,
            VkStructureType::VK_STRUCTURE_TYPE_IMAGE_MEMORY_BARRIER => 45i32,
            VkStructureType::VK_STRUCTURE_TYPE_MEMORY_BARRIER => 46i32,
            VkStructureType::VK_STRUCTURE_TYPE_LOADER_INSTANCE_CREATE_INFO => 47i32,
            VkStructureType::VK_STRUCTURE_TYPE_LOADER_DEVICE_CREATE_INFO => 48i32,
        }
    }
}

/// Kind of hardware behind a physical device.
#[derive(Debug, Clone, Copy, PartialEq, Eq, Structural)]
pub enum VkPhysicalDeviceType {
    VK_PHYSICAL_DEVICE_TYPE_OTHER,
    VK_PHYSICAL_DEVICE_TYPE_INTEGRATED_GPU,
    VK_PHYSICAL_DEVICE_TYPE_DISCRETE_GPU,
    VK_PHYSICAL_DEVICE_TYPE_VIRTUAL_GPU,
    VK_PHYSICAL_DEVICE_TYPE_CPU,
    VK_PHYSICAL_DEVICE_TYPE_MAX_ENUM,
}

impl VkPhysicalDeviceType {
    /// The number that the driver uses for this variant.
    pub open spec fn spec_value(self) -> i32 {
        match self {
            VkPhysicalDeviceType::VK_PHYSICAL_DEVICE_TYPE_OTHER => 0i32,
            VkPhysicalDeviceType::VK_PHYSICAL_DEVICE_TYPE_INTEGRATED_GPU => 1i32,
            VkPhysicalDeviceType::VK_PHYSICAL_DEVICE_TYPE_DISCRETE_GPU => 2i32,
            VkPhysicalDeviceType::VK_PHYSICAL_DEVICE_TYPE_VIRTUAL_GPU => 3i32,
            VkPhysicalDeviceType::VK_PHYSICAL_DEVICE_TYPE_CPU => 4i32,
            VkPhysicalDeviceType::VK_PHYSICAL_DEVICE_TYPE_MAX_ENUM => 0x7FFFFFFFi32,
        }
    }

    /// The number that the driver uses for this variant.
    #[verifier::when_used_as_spec(spec_value)]
    pub fn value(self) -> (r: i32)
        ensures
            r == self.spec_value(),
    {
        match self {
            VkPhysicalDeviceType::VK_PHYSICAL_DEVICE_TYPE_OTHER => 0i32,
            VkPhysicalDeviceType::VK_PHYSICAL_DEVICE_TYPE_INTEGRATED_GPU => 1i32,
            VkPhysicalDeviceType::VK_PHYSICAL_DEVICE_TYPE_DISCRETE_GPU => 2i32,
            VkPhysicalDeviceType::VK_PHYSICAL_DEVICE_TYPE_VIRTUAL_GPU => 3i32,
            VkPhysicalDeviceType::VK_PHYSICAL_DEVICE_TYPE_CPU => 4i32,
            VkPhysicalDeviceType::VK_PHYSICAL_DEVICE_TYPE_MAX_ENUM => 0x7FFFFFFFi32,
        }
    }
}

/// Capabilities of a queue family.
#[derive(Debug, Clone, Copy, PartialEq, Eq, Structural)]
pub enum VkQueueFlagBits {
    VK_QUEUE_GRAPHICS_BIT,
    VK_QUEUE_COMPUTE_BIT,
    VK_QUEUE_TRANSFER_BIT,
    VK_QUEUE_SPARSE_BINDING_BIT,
    VK_QUEUE_PROTECTED_BIT,
    VK_QUEUE_FLAG_BITS_MAX_ENUM,
}

impl VkQueueFlagBits {
    /// The bit mask of this flag.
    pub open spec fn spec_bits(self) -> u32 {
        match self {
            VkQueueFlagBits::VK_QUEUE_GRAPHICS_BIT => 0x00000001u32,
            VkQueueFlagBits::VK_QUEUE_COMPUTE_BIT => 0x00000002u32,
            VkQueueFlagBits::VK_QUEUE_TRANSFER_BIT => 0x00000004u32,
            VkQueueFlagBits::VK_QUEUE_SPARSE_BINDING_BIT => 0x00000008u32,
            VkQueueFlagBits::VK_QUEUE_PROTECTED_BIT => 0x00000010u32,
            VkQueueFlagBits::VK_QUEUE_FLAG_BITS_MAX_ENUM => 0x7FFFFFFFu32,
        }
    }

    /// The bit mask of this flag.
    #[verifier::when_used_as_spec(spec_bits)]
    pub fn bits(self) -> (r: u32)
        ensures
            r == self.spec_bits(),
    {
        match self {
            VkQueueFlagBits::VK_QUEUE_GRAPHICS_BIT => 0x00000001u32,
            VkQueueFlagBits::VK_QUEUE_COMPUTE_BIT => 0x00000002u32,
            VkQueueFlagBits::VK_QUEUE_TRANSFER_BIT => 0x00000004u32,
            VkQueueFlagBits::VK_QUEUE_SPARSE_BINDING_BIT => 0x00000008u32,
            VkQueueFlagBits::VK_QUEUE_PROTECTED_BIT => 0x00000010u32,
            VkQueueFlagBits::VK_QUEUE_FLAG_BITS_MAX_ENUM => 0x7FFFFFFFu32,
        }
    }
}

/// Options of a command pool.
#[derive(Debug, Clone, Copy, PartialEq, Eq, Structural)]
pub enum VkCommandPoolCreateFlagBits {
    VK_COMMAND_POOL_CREATE_TRANSIENT_BIT,
    VK_COMMAND_POOL_CREATE_RESET_COMMAND_BUFFER_BIT,
    VK_COMMAND_POOL_CREATE_PROTECTED_BIT,
    VK_COMMAND_POOL_CREATE_FLAG_BITS_MAX_ENUM,
}

impl VkCommandPoolCreateFlagBits {
    /// The bit mask of this flag.
    pub open spec fn spec_bits(self) -> u32 {
        match self {
            VkCommandPoolCreateFlagBits::VK_COMMAND_POOL_CREATE_TRANSIENT_BIT => 0x00000001u32,
            VkCommandPoolCreateFlagBits::VK_COMMAND_POOL_CREATE_RESET_COMMAND_BUFFER_BIT => 0x00000002u32,
            VkCommandPoolCreateFlagBits::VK_COMMAND_POOL_CREATE_PROTECTED_BIT => 0x00000004u32,
            VkCommandPoolCreateFlagBits::VK_COMMAND_POOL_CREATE_FLAG_BITS_MAX_ENUM => 0x7FFFFFFFu32,
        }
    }

    /// The bit mask of this flag.
    #[verifier::when_used_as_spec(spec_bits)]
    pub fn bits(self) -> (r: u32)
        ensures
            r == self.spec_bits(),
    {
        match self {
            VkCommandPoolCreateFlagBits::VK_COMMAND_POOL_CREATE_TRANSIENT_BIT => 0x00000001u32,
            VkCommandPoolCreateFlagBits::VK_COMMAND_POOL_CREATE_RESET_COMMAND_BUFFER_BIT => 0x00000002u32,
            VkCommandPoolCreateFlagBits::VK_COMMAND_POOL_CREATE_PROTECTED_BIT => 0x00000004u32,
            VkCommandPoolCreateFlagBits::VK_COMMAND_POOL_CREATE_FLAG_BITS_MAX_ENUM => 0x7FFFFFFFu32,
        }
    }
}

/// Properties of a memory type.
#[derive(Debug, Clone, Copy, PartialEq, Eq, Structural)]
pub enum VkMemoryPropertyFlagBits {
    VK_MEMORY_PROPERTY_DEVICE_LOCAL_BIT,
    VK_MEMORY_PROPERTY_HOST_VISIBLE_BIT,
    VK_MEMORY_PROPERTY_HOST_COHERENT_BIT,
    VK_MEMORY_PROPERTY_HOST_CACHED_BIT,
    VK_MEMORY_PROPERTY_LAZILY_ALLOCATED_BIT,
    VK_MEMORY_PROPERTY_PROTECTED_BIT,
    VK_MEMORY_PROPERTY_DEVICE_COHERENT_BIT_AMD,
    VK_MEMORY_PROPERTY_DEVICE_UNCACHED_BIT_AMD,
    VK_MEMORY_PROPERTY_FLAG_BITS_MAX_ENUM,
}

impl VkMemoryPropertyFlagBits {
    /// The bit mask of this flag.
    pub open spec fn spec_bits(self) -> u32 {
        match self {
            VkMemoryPropertyFlagBits::VK_MEMORY_PROPERTY_DEVICE_LOCAL_BIT => 0x00000001u32,
            VkMemoryPropertyFlagBits::VK_MEMORY_PROPERTY_HOST_VISIBLE_BIT => 0x00000002u32,
            VkMemoryPropertyFlagBits::VK_MEMORY_PROPERTY_HOST_COHERENT_BIT => 0x00000004u32,
            VkMemoryPropertyFlagBits::VK_MEMORY_PROPERTY_HOST_CACHED_BIT => 0x00000008u32,
            VkMemoryPropertyFlagBits::VK_MEMORY_PROPERTY_LAZILY_ALLOCATED_BIT => 0x00000010u32,
            VkMemoryPropertyFlagBits::VK_MEMORY_PROPERTY_PROTECTED_BIT => 0x00000020u32,
            VkMemoryPropertyFlagBits::VK_MEMORY_PROPERTY_DEVICE_COHERENT_BIT_AMD => 0x00000040u32,
            VkMemoryPropertyFlagBits::VK_MEMORY_PROPERTY_DEVICE_UNCACHED_BIT_AMD => 0x00000080u32,
            VkMemoryPropertyFlagBits::VK_MEMORY_PROPERTY_FLAG_BITS_MAX_ENUM => 0x7FFFFFFFu32,
        }
    }

    /// The bit mask of this flag.
    #[verifier::when_used_as_spec(spec_bits)]
    pub fn bits(self) -> (r: u32)
        ensures
            r == self.spec_bits(),
    {
        match self {
            VkMemoryPropertyFlagBits::VK_MEMORY_PROPERTY_DEVICE_LOCAL_BIT => 0x00000001u32,
            VkMemoryPropertyFlagBits::VK_MEMORY_PROPERTY_HOST_VISIBLE_BIT => 0x00000002u32,
            VkMemoryPropertyFlagBits::VK_MEMORY_PROPERTY_HOST_COHERENT_BIT => 0x00000004u32,
            VkMemoryPropertyFlagBits::VK_MEMORY_PROPERTY_HOST_CACHED_BIT => 0x00000008u32,
            VkMemoryPropertyFlagBits::VK_MEMORY_PROPERTY_LAZILY_ALLOCATED_BIT => 0x00000010u32,
            VkMemoryPropertyFlagBits::VK_MEMORY_PROPERTY_PROTECTED_BIT => 0x00000020u32,
            VkMemoryPropertyFlagBits::VK_MEMORY_PROPERTY_DEVICE_COHERENT_BIT_AMD => 0x00000040u32,
            VkMemoryPropertyFlagBits::VK_MEMORY_PROPERTY_DEVICE_UNCACHED_BIT_AMD => 0x00000080u32,
            VkMemoryPropertyFlagBits::VK_MEMORY_PROPERTY_FLAG_BITS_MAX_ENUM => 0x7FFFFFFFu32,
        }
    }
}

/// Properties of a memory heap.
#[derive(Debug, Clone, Copy, PartialEq, Eq, Structural)]
pub enum VkMemoryHeapFlagBits {
    VK_MEMORY_HEAP_DEVICE_LOCAL_BIT,
    VK_MEMORY_HEAP_MULTI_INSTANCE_BIT,
    VK_MEMORY_HEAP_FLAG_BITS_MAX_ENUM,
}

impl VkMemoryHeapFlagBits {
    /// The bit mask of this flag.
    pub open spec fn spec_bits(self) -> u32 {
        match self {
            VkMemoryHeapFlagBits::VK_MEMORY_HEAP_DEVICE_LOCAL_BIT => 0x00000001u32,
            VkMemoryHeapFlagBits::VK_MEMORY_HEAP_MULTI_INSTANCE_BIT => 0x00000002u32,
            VkMemoryHeapFlagBits::VK_MEMORY_HEAP_FLAG_BITS_MAX_ENUM => 0x7FFFFFFFu32,
        }
    }

    /// The bit mask of this flag.
    #[verifier::when_used_as_spec(spec_bits)]
    pub fn bits(self) -> (r: u32)
        ensures
            r == self.spec_bits(),
    {
        match self {
            VkMemoryHeapFlagBits::VK_MEMORY_HEAP_DEVICE_LOCAL_BIT => 0x00000001u32,
            VkMemoryHeapFlagBits::VK_MEMORY_HEAP_MULTI_INSTANCE_BIT => 0x00000002u32,
            VkMemoryHeapFlagBits::VK_MEMORY_HEAP_FLAG_BITS_MAX_ENUM => 0x7FFFFFFFu32,
        }
    }
}

/// Allowed uses of a buffer.
#[derive(Debug, Clone, Copy, PartialEq, Eq, Structural)]
pub enum VkBufferUsageFlagBits {
    VK_BUFFER_USAGE_TRANSFER_SRC_BIT,
    VK_BUFFER_USAGE_TRANSFER_DST_BIT,
    VK_BUFFER_USAGE_UNIFORM_TEXEL_BUFFER_BIT,
    VK_BUFFER_USAGE_STORAGE_TEXEL_BUFFER_BIT,
    VK_BUFFER_USAGE_UNIFORM_BUFFER_BIT,
    VK_BUFFER_USAGE_STORAGE_BUFFER_BIT,
    VK_BUFFER_USAGE_INDEX_BUFFER_BIT,
    VK_BUFFER_USAGE_VERTEX_BUFFER_BIT,
    VK_BUFFER_USAGE_INDIRECT_BUFFER_BIT,
    VK_BUFFER_USAGE_TRANSFORM_FEEDBACK_BUFFER_BIT_EXT,
    VK_BUFFER_USAGE_TRANSFORM_FEEDBACK_COUNTER_BUFFER_BIT_EXT,
    VK_BUFFER_USAGE_CONDITIONAL_RENDERING_BIT_EXT,
    VK_BUFFER_USAGE_RAY_TRACING_BIT_NV,
    VK_BUFFER_USAGE_SHADER_DEVICE_ADDRESS_BIT_EXT,
    VK_BUFFER_USAGE_FLAG_BITS_MAX_ENUM,
}

impl VkBufferUsageFlagBits {
    /// The bit mask of this flag.
    pub open spec fn spec_bits(self) -> u32 {
        match self {
            VkBufferUsageFlagBits::VK_BUFFER_USAGE_TRANSFER_SRC_BIT => 0x00000001u32,
            VkBufferUsageFlagBits::VK_BUFFER_USAGE_TRANSFER_DST_BIT => 0x00000002u32,
            VkBufferUsageFlagBits::VK_BUFFER_USAGE_UNIFORM_TEXEL_BUFFER_BIT => 0x00000004u32,
            VkBufferUsageFlagBits::VK_BUFFER_USAGE_STORAGE_TEXEL_BUFFER_BIT => 0x00000008u32,
            VkBufferUsageFlagBits::VK_BUFFER_USAGE_UNIFORM_BUFFER_BIT => 0x00000010u32,
            VkBufferUsageFlagBits::VK_BUFFER_USAGE_STORAGE_BUFFER_BIT => 0x00000020u32,
            VkBufferUsageFlagBits::VK_BUFFER_USAGE_INDEX_BUFFER_BIT => 0x00000040u32,
            VkBufferUsageFlagBits::VK_BUFFER_USAGE_VERTEX_BUFFER_BIT => 0x00000080u32,
            VkBufferUsageFlagBits::VK_BUFFER_USAGE_INDIRECT_BUFFER_BIT => 0x00000100u32,
            VkBufferUsageFlagBits::VK_BUFFER_USAGE_TRANSFORM_FEEDBACK_BUFFER_BIT_EXT => 0x00000800u32,
            VkBufferUsageFlagBits::VK_BUFFER_USAGE_TRANSFORM_FEEDBACK_COUNTER_BUFFER_BIT_EXT => 0x00001000u32,
            VkBufferUsageFlagBits::VK_BUFFER_USAGE_CONDITIONAL_RENDERING_BIT_EXT => 0x00000200u32,
            VkBufferUsageFlagBits::VK_BUFFER_USAGE_RAY_TRACING_BIT_NV => 0x00000400u32,
            VkBufferUsageFlagBits::VK_BUFFER_USAGE_SHADER_DEVICE_ADDRESS_BIT_EXT => 0x00020000u32,
            VkBufferUsageFlagBits::VK_BUFFER_USAGE_FLAG_BITS_MAX_ENUM => 0x7FFFFFFFu32,
        }
    }

    /// The bit mask of this flag.
    #[verifier::when_used_as_spec(spec_bits)]
    pub fn bits(self) -> (r: u32)
        ensures
            r == self.spec_bits(),
    {
        match self {
            VkBufferUsageFlagBits::VK_BUFFER_USAGE_TRANSFER_SRC_BIT => 0x00000001u32,
            VkBufferUsageFlagBits::VK_BUFFER_USAGE_TRANSFER_DST_BIT => 0x00000002u32,
            VkBufferUsageFlagBits::VK_BUFFER_USAGE_UNIFORM_TEXEL_BUFFER_BIT => 0x00000004u32,
            VkBufferUsageFlagBits::VK_BUFFER_USAGE_STORAGE_TEXEL_BUFFER_BIT => 0x00000008u32,
            VkBufferUsageFlagBits::VK_BUFFER_USAGE_UNIFORM_BUFFER_BIT => 0x00000010u32,
            VkBufferUsageFlagBits::VK_BUFFER_USAGE_STORAGE_BUFFER_BIT => 0x00000020u32,
            VkBufferUsageFlagBits::VK_BUFFER_USAGE_INDEX_BUFFER_BIT => 0x00000040u32,
            VkBufferUsageFlagBits::VK_BUFFER_USAGE_VERTEX_BUFFER_BIT => 0x00000080u32,
            VkBufferUsageFlagBits::VK_BUFFER_USAGE_INDIRECT_BUFFER_BIT => 0x00000100u32,
            VkBufferUsageFlagBits::VK_BUFFER_USAGE_TRANSFORM_FEEDBACK_BUFFER_BIT_EXT => 0x00000800u32,
            VkBufferUsageFlagBits::VK_BUFFER_USAGE_TRANSFORM_FEEDBACK_COUNTER_BUFFER_BIT_EXT => 0x00001000u32,
            VkBufferUsageFlagBits::VK_BUFFER_USAGE_CONDITIONAL_RENDERING_BIT_EXT => 0x00000200u32,
            VkBufferUsageFlagBits::VK_BUFFER_USAGE_RAY_TRACING_BIT_NV => 0x00000400u32,
            VkBufferUsageFlagBits::VK_BUFFER_USAGE_SHADER_DEVICE_ADDRESS_BIT_EXT => 0x00020000u32,
            VkBufferUsageFlagBits::VK_BUFFER_USAGE_FLAG_BITS_MAX_ENUM => 0x7FFFFFFFu32,
        }
    }
}

/// Level of a command buffer.
#[derive(Debug, Clone, Copy, PartialEq, Eq, Structural)]
pub enum VkCommandBufferLevel {
    VK_COMMAND_BUFFER_LEVEL_PRIMARY,
    VK_COMMAND_BUFFER_LEVEL_SECONDARY,
    VK_COMMAND_BUFFER_LEVEL_MAX_ENUM,
}

impl VkCommandBufferLevel {
    /// The number that the driver uses for this variant.
    pub open spec fn spec_value(self) -> i32 {
        match self {
            VkCommandBufferLevel::VK_COMMAND_BUFFER_LEVEL_PRIMARY => 0i32,
            VkCommandBufferLevel::VK_COMMAND_BUFFER_LEVEL_SECONDARY => 1i32,
            VkCommandBufferLevel::VK_COMMAND_BUFFER_LEVEL_MAX_ENUM => 0x7FFFFFFFi32,
        }
    }

    /// The number that the driver uses for this variant.
    #[verifier::when_used_as_spec(spec_value)]
    pub fn value(self) -> (r: i32)
        ensures
            r == self.spec_value(),
    {
        match self {
            VkCommandBufferLevel::VK_COMMAND_BUFFER_LEVEL_PRIMARY => 0i32,
            VkCommandBufferLevel::VK_COMMAND_BUFFER_LEVEL_SECONDARY => 1i32,
            VkCommandBufferLevel::VK_COMMAND_BUFFER_LEVEL_MAX_ENUM => 0x7FFFFFFFi32,
        }
    }
}

/// Pipeline statistics that a query can count.
#[derive(Debug, Clone, Copy, PartialEq, Eq, Structural)]
pub enum VkQueryPipelineStatisticFlagBits {
    VK_QUERY_PIPELINE_STATISTIC_INPUT_ASSEMBLY_VERTICES_BIT,
    VK_QUERY_PIPELINE_STATISTIC_INPUT_ASSEMBLY_PRIMITIVES_BIT,
    VK_QUERY_PIPELINE_STATISTIC_VERTEX_SHADER_INVOCATIONS_BIT,
    VK_QUERY_PIPELINE_STATISTIC_GEOMETRY_SHADER_INVOCATIONS_BIT,
    VK_QUERY_PIPELINE_STATISTIC_GEOMETRY_SHADER_PRIMITIVES_BIT,
    VK_QUERY_PIPELINE_STATISTIC_CLIPPING_INVOCATIONS_BIT,
    VK_QUERY_PIPELINE_STATISTIC_CLIPPING_PRIMITIVES_BIT,
    VK_QUERY_PIPELINE_STATISTIC_FRAGMENT_SHADER_INVOCATIONS_BIT,
    VK_QUERY_PIPELINE_STATISTIC_TESSELLATION_CONTROL_SHADER_PATCHES_BIT,
    VK_QUERY_PIPELINE_STATISTIC_TESSELLATION_EVALUATION_SHADER_INVOCATIONS_BIT,
    VK_QUERY_PIPELINE_STATISTIC_COMPUTE_SHADER_INVOCATIONS_BIT,
    VK_QUERY_PIPELINE_STATISTIC_FLAG_BITS_MAX_ENUM,
}

impl VkQueryPipelineStatisticFlagBits {
    /// The bit mask of this flag.
    pub open spec fn spec_bits(self) -> u32 {
        match self {
            VkQueryPipelineStatisticFlagBits::VK_QUERY_PIPELINE_STATISTIC_INPUT_ASSEMBLY_VERTICES_BIT => 0x00000001u32,
            VkQueryPipelineStatisticFlagBits::VK_QUERY_PIPELINE_STATISTIC_INPUT_ASSEMBLY_PRIMITIVES_BIT => 0x00000002u32,
            VkQueryPipelineStatisticFlagBits::VK_QUERY_PIPELINE_STATISTIC_VERTEX_SHADER_INVOCATIONS_BIT => 0x00000004u32,
            VkQueryPipelineStatisticFlagBits::VK_QUERY_PIPELINE_STATISTIC_GEOMETRY_SHADER_INVOCATIONS_BIT => 0x00000008u32,
            VkQueryPipelineStatisticFlagBits::VK_QUERY_PIPELINE_STATISTIC_GEOMETRY_SHADER_PRIMITIVES_BIT => 0x00000010u32,
            VkQueryPipelineStatisticFlagBits::VK_QUERY_PIPELINE_STATISTIC_CLIPPING_INVOCATIONS_BIT => 0x00000020u32,
            VkQueryPipelineStatisticFlagBits::VK_QUERY_PIPELINE_STATISTIC_CLIPPING_PRIMITIVES_BIT => 0x00000040u32,
            VkQueryPipelineStatisticFlagBits::VK_QUERY_PIPELINE_STATISTIC_FRAGMENT_SHADER_INVOCATIONS_BIT => 0x00000080u32,
            VkQueryPipelineStatisticFlagBits::VK_QUERY_PIPELINE_STATISTIC_TESSELLATION_CONTROL_SHADER_PATCHES_BIT => 0x00000100u32,
            VkQueryPipelineStatisticFlagBits::VK_QUERY_PIPELINE_STATISTIC_TESSELLATION_EVALUATION_SHADER_INVOCATIONS_BIT => 0x00000200u32,
            VkQueryPipelineStatisticFlagBits::VK_QUERY_PIPELINE_STATISTIC_COMPUTE_SHADER_INVOCATIONS_BIT => 0x00000400u32,
            VkQueryPipelineStatisticFlagBits::VK_QUERY_PIPELINE_STATISTIC_FLAG_BITS_MAX_ENUM => 0x7FFFFFFFu32,
        }
    }

    /// The bit mask of this flag.
    #[verifier::when_used_as_spec(spec_bits)]
    pub fn bits(self) -> (r: u32)
        ensures
            r == self.spec_bits(),
    {
        match self {
            VkQueryPipelineStatisticFlagBits::VK_QUERY_PIPELINE_STATISTIC_INPUT_ASSEMBLY_VERTICES_BIT => 0x00000001u32,
            VkQueryPipelineStatisticFlagBits::VK_QUERY_PIPELINE_STATISTIC_INPUT_ASSEMBLY_PRIMITIVES_BIT => 0x00000002u32,
            VkQueryPipelineStatisticFlagBits::VK_QUERY_PIPELINE_STATISTIC_VERTEX_SHADER_INVOCATIONS_BIT => 0x00000004u32,
            VkQueryPipelineStatisticFlagBits::VK_QUERY_PIPELINE_STATISTIC_GEOMETRY_SHADER_INVOCATIONS_BIT => 0x00000008u32,
            VkQueryPipelineStatisticFlagBits::VK_QUERY_PIPELINE_STATISTIC_GEOMETRY_SHADER_PRIMITIVES_BIT => 0x00000010u32,
            VkQueryPipelineStatisticFlagBits::VK_QUERY_PIPELINE_STATISTIC_CLIPPING_INVOCATIONS_BIT => 0x00000020u32,
            VkQueryPipelineStatisticFlagBits::VK_QUERY_PIPELINE_STATISTIC_CLIPPING_PRIMITIVES_BIT => 0x00000040u32,
            VkQueryPipelineStatisticFlagBits::VK_QUERY_PIPELINE_STATISTIC_FRAGMENT_SHADER_INVOCATIONS_BIT => 0x00000080u32,
            VkQueryPipelineStatisticFlagBits::VK_QUERY_PIPELINE_STATISTIC_TESSELLATION_CONTROL_SHADER_PATCHES_BIT => 0x00000100u32,
            VkQueryPipelineStatisticFlagBits::VK_QUERY_PIPELINE_STATISTIC_TESSELLATION_EVALUATION_SHADER_INVOCATIONS_BIT => 0x00000200u32,
            VkQueryPipelineStatisticFlagBits::VK_QUERY_PIPELINE_STATISTIC_COMPUTE_SHADER_INVOCATIONS_BIT => 0x00000400u32,
            VkQueryPipelineStatisticFlagBits::VK_QUERY_PIPELINE_STATISTIC_FLAG_BITS_MAX_ENUM => 0x7FFFFFFFu32,
        }
    }
}

/// Kind of resource behind a descriptor.
#[derive(Debug, Clone, Copy, PartialEq, Eq, Structural)]
pub enum VkDescriptorType {
    VK_DESCRIPTOR_TYPE_SAMPLER,
    VK_DESCRIPTOR_TYPE_COMBINED_IMAGE_SAMPLER,
    VK_DESCRIPTOR_TYPE_SAMPLED_IMAGE,
    VK_DESCRIPTOR_TYPE_STORAGE_IMAGE,
    VK_DESCRIPTOR_TYPE_UNIFORM_TEXEL_BUFFER,
    VK_DESCRIPTOR_TYPE_STORAGE_TEXEL_BUFFER,
    VK_DESCRIPTOR_TYPE_UNIFORM_BUFFER,
    VK_DESCRIPTOR_TYPE_STORAGE_BUFFER,
    VK_DESCRIPTOR_TYPE_UNIFORM_BUFFER_DYNAMIC,
    VK_DESCRIPTOR_TYPE_STORAGE_BUFFER_DYNAMIC,
    VK_DESCRIPTOR_TYPE_INPUT_ATTACHMENT,
    VK_DESCRIPTOR_TYPE_INLINE_UNIFORM_BLOCK_EXT,
    VK_DESCRIPTOR_TYPE_ACCELERATION_STRUCTURE_NV,
    VK_DESCRIPTOR_TYPE_MAX_ENUM,
}

impl VkDescriptorType {
    /// The number that the driver uses for this variant.
    pub open spec fn spec_value(self) -> i32 {
        match self {
            VkDescriptorType::VK_DESCRIPTOR_TYPE_SAMPLER => 0i32,
            VkDescriptorType::VK_DESCRIPTOR_TYPE_COMBINED_IMAGE_SAMPLER => 1i32,
            VkDescriptorType::VK_DESCRIPTOR_TYPE_SAMPLED_IMAGE => 2i32,
            VkDescriptorType::VK_DESCRIPTOR_TYPE_STORAGE_IMAGE => 3i32,
            VkDescriptorType::VK_DESCRIPTOR_TYPE_UNIFORM_TEXEL_BUFFER => 4i32,
            VkDescriptorType::VK_DESCRIPTOR_TYPE_STORAGE_TEXEL_BUFFER => 5i32,
            VkDescriptorType::VK_DESCRIPTOR_TYPE_UNIFORM_BUFFER => 6i32,
            VkDescriptorType::VK_DESCRIPTOR_TYPE_STORAGE_BUFFER => 7i32,
            VkDescriptorType::VK_DESCRIPTOR_TYPE_UNIFORM_BUFFER_DYNAMIC => 8i32,
            VkDescriptorType::VK_DESCRIPTOR_TYPE_STORAGE_BUFFER_DYNAMIC => 9i32,
            VkDescriptorType::VK_DESCRIPTOR_TYPE_INPUT_ATTACHMENT => 10i32,
            VkDescriptorType::VK_DESCRIPTOR_TYPE_INLINE_UNIFORM_BLOCK_EXT => 1000138000i32,
            VkDescriptorType::VK_DESCRIPTOR_TYPE_ACCELERATION_STRUCTURE_NV => 1000165000i32,
            VkDescriptorType::VK_DESCRIPTOR_TYPE_MAX_ENUM => 0x7FFFFFFFi32,
        }
    }

    /// The number that the driver uses for this variant.
    #[verifier::when_used_as_spec(spec_value)]
    pub fn value(self) -> (r: i32)
        ensures
            r == self.spec_value(),
    {
        match self {
            VkDescriptorType::VK_DESCRIPTOR_TYPE_SAMPLER => 0i32,
            VkDescriptorType::VK_DESCRIPTOR_TYPE_COMBINED_IMAGE_SAMPLER => 1i32,
            VkDescriptorType::VK_DESCRIPTOR_TYPE_SAMPLED_IMAGE => 2i32,
            VkDescriptorType::VK_DESCRIPTOR_TYPE_STORAGE_IMAGE => 3i32,
            VkDescriptorType::VK_DESCRIPTOR_TYPE_UNIFORM_TEXEL_BUFFER => 4i32,
            VkDescriptorType::VK_DESCRIPTOR_TYPE_STORAGE_TEXEL_BUFFER => 5i32,
            VkDescriptorType::VK_DESCRIPTOR_TYPE_UNIFORM_BUFFER => 6i32,
            VkDescriptorType::VK_DESCRIPTOR_TYPE_STORAGE_BUFFER => 7i32,
            VkDescriptorType::VK_DESCRIPTOR_TYPE_UNIFORM_BUFFER_DYNAMIC => 8i32,
            VkDescriptorType::VK_DESCRIPTOR_TYPE_STORAGE_BUFFER_DYNAMIC => 9i32,
            VkDescriptorType::VK_DESCRIPTOR_TYPE_INPUT_ATTACHMENT => 10i32,
            VkDescriptorType::VK_DESCRIPTOR_TYPE_INLINE_UNIFORM_BLOCK_EXT => 1000138000i32,
            VkDescriptorType::VK_DESCRIPTOR_TYPE_ACCELERATION_STRUCTURE_NV => 1000165000i32,
            VkDescriptorType::VK_DESCRIPTOR_TYPE_MAX_ENUM => 0x7FFFFFFFi32,
        }
    }
}

/// Layout of an image in memory.
#[derive(Debug, Clone, Copy, PartialEq, Eq, Structural)]
pub enum VkImageLayout {
    VK_IMAGE_LAYOUT_UNDEFINED,
    VK_IMAGE_LAYOUT_GENERAL,
    VK_IMAGE_LAYOUT_COLOR_ATTACHMENT_OPTIMAL,
    VK_IMAGE_LAYOUT_DEPTH_STENCIL_ATTACHMENT_OPTIMAL,
    VK_IMAGE_LAYOUT_DEPTH_STENCIL_READ_ONLY_OPTIMAL,
    VK_IMAGE_LAYOUT_SHADER_READ_ONLY_OPTIMAL,
    VK_IMAGE_LAYOUT_TRANSFER_SRC_OPTIMAL,
    VK_IMAGE_LAYOUT_TRANSFER_DST_OPTIMAL,
    VK_IMAGE_LAYOUT_PREINITIALIZED,
    VK_IMAGE_LAYOUT_DEPTH_READ_ONLY_STENCIL_ATTACHMENT_OPTIMAL,
    VK_IMAGE_LAYOUT_DEPTH_ATTACHMENT_STENCIL_READ_ONLY_OPTIMAL,
    VK_IMAGE_LAYOUT_PRESENT_SRC_KHR,
    VK_IMAGE_LAYOUT_SHARED_PRESENT_KHR,
    VK_IMAGE_LAYOUT_SHADING_RATE_OPTIMAL_NV,
    VK_IMAGE_LAYOUT_FRAGMENT_DENSITY_MAP_OPTIMAL_EXT,
    VK_IMAGE_LAYOUT_DEPTH_ATTACHMENT_OPTIMAL_KHR,
    VK_IMAGE_LAYOUT_DEPTH_READ_ONLY_OPTIMAL_KHR,
    VK_IMAGE_LAYOUT_STENCIL_ATTACHMENT_OPTIMAL_KHR,
    VK_IMAGE_LAYOUT_STENCIL_READ_ONLY_OPTIMAL_KHR,
    VK_IMAGE_LAYOUT_MAX_ENUM,
}

impl VkImageLayout {
    /// The number that the driver uses for this variant.
    pub open spec fn spec_value(self) -> i32 {
        match self {
            VkImageLayout::VK_IMAGE_LAYOUT_UNDEFINED => 0i32,
            VkImageLayout::VK_IMAGE_LAYOUT_GENERAL => 1i32,
            VkImageLayout::VK_IMAGE_LAYOUT_COLOR_ATTACHMENT_OPTIMAL => 2i32,
            VkImageLayout::VK_IMAGE_LAYOUT_DEPTH_STENCIL_ATTACHMENT_OPTIMAL => 3i32,
            VkImageLayout::VK_IMAGE_LAYOUT_DEPTH_STENCIL_READ_ONLY_OPTIMAL => 4i32,
            VkImageLayout::VK_IMAGE_LAYOUT_SHADER_READ_ONLY_OPTIMAL => 5i32,
            VkImageLayout::VK_IMAGE_LAYOUT_TRANSFER_SRC_OPTIMAL => 6i32,
            VkImageLayout::VK_IMAGE_LAYOUT_TRANSFER_DST_OPTIMAL => 7i32,
            VkImageLayout::VK_IMAGE_LAYOUT_PREINITIALIZED => 8i32,
            VkImageLayout::VK_IMAGE_LAYOUT_DEPTH_READ_ONLY_STENCIL_ATTACHMENT_OPTIMAL => 1000117000i32,
            VkImageLayout::VK_IMAGE_LAYOUT_DEPTH_ATTACHMENT_STENCIL_READ_ONLY_OPTIMAL => 1000117001i32,
            VkImageLayout::VK_IMAGE_LAYOUT_PRESENT_SRC_KHR => 1000001002i32,
            VkImageLayout::VK_IMAGE_LAYOUT_SHARED_PRESENT_KHR => 1000111000i32,
            VkImageLayout::VK_IMAGE_LAYOUT_SHADING_RATE_OPTIMAL_NV => 1000164003i32,
            VkImageLayout::VK_IMAGE_LAYOUT_FRAGMENT_DENSITY_MAP_OPTIMAL_EXT => 1000218000i32,
            VkImageLayout::VK_IMAGE_LAYOUT_DEPTH_ATTACHMENT_OPTIMAL_KHR => 1000241000i32,
            VkImageLayout::VK_IMAGE_LAYOUT_DEPTH_READ_ONLY_OPTIMAL_KHR => 1000241001i32,
            VkImageLayout::VK_IMAGE_LAYOUT_STENCIL_ATTACHMENT_OPTIMAL_KHR => 1000241002i32,
            VkImageLayout::VK_IMAGE_LAYOUT_STENCIL_READ_ONLY_OPTIMAL_KHR => 1000241003i32,
            VkImageLayout::VK_IMAGE_LAYOUT_MAX_ENUM => 0x7FFFFFFFi32,
        }
    }

    /// The number that the driver uses for this variant.
    #[verifier::when_used_as_spec(spec_value)]
    pub fn value(self) -> (r: i32)
        ensures
            r == self.spec_value(),
    {
        match self {
            VkImageLayout::VK_IMAGE_LAYOUT_UNDEFINED => 0i32,
            VkImageLayout::VK_IMAGE_LAYOUT_GENERAL => 1i32,
            VkImageLayout::VK_IMAGE_LAYOUT_COLOR_ATTACHMENT_OPTIMAL => 2i32,
            VkImageLayout::VK_IMAGE_LAYOUT_DEPTH_STENCIL_ATTACHMENT_OPTIMAL => 3i32,
            VkImageLayout::VK_IMAGE_LAYOUT_DEPTH_STENCIL_READ_ONLY_OPTIMAL => 4i32,
            VkImageLayout::VK_IMAGE_LAYOUT_SHADER_READ_ONLY_OPTIMAL => 5i32,
            VkImageLayout::VK_IMAGE_LAYOUT_TRANSFER_SRC_OPTIMAL => 6i32,
            VkImageLayout::VK_IMAGE_LAYOUT_TRANSFER_DST_OPTIMAL => 7i32,
            VkImageLayout::VK_IMAGE_LAYOUT_PREINITIALIZED => 8i32,
            VkImageLayout::VK_IMAGE_LAYOUT_DEPTH_READ_ONLY_STENCIL_ATTACHMENT_OPTIMAL => 1000117000i32,
            VkImageLayout::VK_IMAGE_LAYOUT_DEPTH_ATTACHMENT_STENCIL_READ_ONLY_OPTIMAL => 1000117001i32,
            VkImageLayout::VK_IMAGE_LAYOUT_PRESENT_SRC_KHR => 1000001002i32,
            VkImageLayout::VK_IMAGE_LAYOUT_SHARED_PRESENT_KHR => 1000111000i32,
            VkImageLayout::VK_IMAGE_LAYOUT_SHADING_RATE_OPTIMAL_NV => 1000164003i32,
            VkImageLayout::VK_IMAGE_LAYOUT_FRAGMENT_DENSITY_MAP_OPTIMAL_EXT => 1000218000i32,
            VkImageLayout::VK_IMAGE_LAYOUT_DEPTH_ATTACHMENT_OPTIMAL_KHR => 1000241000i32,
            VkImageLayout::VK_IMAGE_LAYOUT_DEPTH_READ_ONLY_OPTIMAL_KHR => 1000241001i32,
            VkImageLayout::VK_IMAGE_LAYOUT_STENCIL_ATTACHMENT_OPTIMAL_KHR => 1000241002i32,
            VkImageLayout::VK_IMAGE_LAYOUT_STENCIL_READ_ONLY_OPTIMAL_KHR => 1000241003i32,
            VkImageLayout::VK_IMAGE_LAYOUT_MAX_ENUM => 0x7FFFFFFFi32,
        }
    }
}

/// Shader stages.
#[derive(Debug, Clone, Copy, PartialEq, Eq, Structural)]
pub enum VkShaderStageFlagBits {
    VK_SHADER_STAGE_VERTEX_BIT,
    VK_SHADER_STAGE_TESSELLATION_CONTROL_BIT,
    VK_SHADER_STAGE_TESSELLATION_EVALUATION_BIT,
    VK_SHADER_STAGE_GEOMETRY_BIT,
    VK_SHADER_STAGE_FRAGMENT_BIT,
    VK_SHADER_STAGE_COMPUTE_BIT,
    VK_SHADER_STAGE_ALL_GRAPHICS,
    VK_SHADER_STAGE_ALL,
    VK_SHADER_STAGE_RAYGEN_BIT_NV,
    VK_SHADER_STAGE_ANY_HIT_BIT_NV,
    VK_SHADER_STAGE_CLOSEST_HIT_BIT_NV,
    VK_SHADER_STAGE_MISS_BIT_NV,
    VK_SHADER_STAGE_INTERSECTION_BIT_NV,
    VK_SHADER_STAGE_CALLABLE_BIT_NV,
    VK_SHADER_STAGE_TASK_BIT_NV,
    VK_SHADER_STAGE_MESH_BIT_NV,
}

impl VkShaderStageFlagBits {
    /// The bit mask of this flag.
    pub open spec fn spec_bits(self) -> u32 {
        match self {
            VkShaderStageFlagBits::VK_SHADER_STAGE_VERTEX_BIT => 0x00000001u32,
            VkShaderStageFlagBits::VK_SHADER_STAGE_TESSELLATION_CONTROL_BIT => 0x00000002u32,
            VkShaderStageFlagBits::VK_SHADER_STAGE_TESSELLATION_EVALUATION_BIT => 0x00000004u32,
            VkShaderStageFlagBits::VK_SHADER_STAGE_GEOMETRY_BIT => 0x00000008u32,
            VkShaderStageFlagBits::VK_SHADER_STAGE_FRAGMENT_BIT => 0x00000010u32,
            VkShaderStageFlagBits::VK_SHADER_STAGE_COMPUTE_BIT => 0x00000020u32,
            VkShaderStageFlagBits::VK_SHADER_STAGE_ALL_GRAPHICS => 0x0000001Fu32,
            VkShaderStageFlagBits::VK_SHADER_STAGE_ALL => 0x7FFFFFFFu32,
            VkShaderStageFlagBits::VK_SHADER_STAGE_RAYGEN_BIT_NV => 0x00000100u32,
            VkShaderStageFlagBits::VK_SHADER_STAGE_ANY_HIT_BIT_NV => 0x00000200u32,
            VkShaderStageFlagBits::VK_SHADER_STAGE_CLOSEST_HIT_BIT_NV => 0x00000400u32,
            VkShaderStageFlagBits::VK_SHADER_STAGE_MISS_BIT_NV => 0x00000800u32,
            VkShaderStageFlagBits::VK_SHADER_STAGE_INTERSECTION_BIT_NV => 0x00001000u32,
            VkShaderStageFlagBits::VK_SHADER_STAGE_CALLABLE_BIT_NV => 0x00002000u32,
            VkShaderStageFlagBits::VK_SHADER_STAGE_TASK_BIT_NV => 0x00000040u32,
            VkShaderStageFlagBits::VK_SHADER_STAGE_MESH_BIT_NV => 0x00000080u32,
        }
    }

    /// The bit mask of this flag.
    #[verifier::when_used_as_spec(spec_bits)]
    pub fn bits(self) -> (r: u32)
        ensures
            r == self.spec_bits(),
    {
        match self {
            VkShaderStageFlagBits::VK_SHADER_STAGE_VERTEX_BIT => 0x00000001u32,
            VkShaderStageFlagBits::VK_SHADER_STAGE_TESSELLATION_CONTROL_BIT => 0x00000002u32,
            VkShaderStageFlagBits::VK_SHADER_STAGE_TESSELLATION_EVALUATION_BIT => 0x00000004u32,
            VkShaderStageFlagBits::VK_SHADER_STAGE_GEOMETRY_BIT => 0x00000008u32,
            VkShaderStageFlagBits::VK_SHADER_STAGE_FRAGMENT_BIT => 0x00000010u32,
            VkShaderStageFlagBits::VK_SHADER_STAGE_COMPUTE_BIT => 0x00000020u32,
            VkShaderStageFlagBits::VK_SHADER_STAGE_ALL_GRAPHICS => 0x0000001Fu32,
            VkShaderStageFlagBits::VK_SHADER_STAGE_ALL => 0x7FFFFFFFu32,
            VkShaderStageFlagBits::VK_SHADER_STAGE_RAYGEN_BIT_NV => 0x00000100u32,
            VkShaderStageFlagBits::VK_SHADER_STAGE_ANY_HIT_BIT_NV => 0x00000200u32,
            VkShaderStageFlagBits::VK_SHADER_STAGE_CLOSEST_HIT_BIT_NV => 0x00000400u32,
            VkShaderStageFlagBits::VK_SHADER_STAGE_MISS_BIT_NV => 0x00000800u32,
            VkShaderStageFlagBits::VK_SHADER_STAGE_INTERSECTION_BIT_NV => 0x00001000u32,
            VkShaderStageFlagBits::VK_SHADER_STAGE_CALLABLE_BIT_NV => 0x00002000u32,
            VkShaderStageFlagBits::VK_SHADER_STAGE_TASK_BIT_NV => 0x00000040u32,
            VkShaderStageFlagBits::VK_SHADER_STAGE_MESH_BIT_NV => 0x00000080u32,
        }
    }
}

/// Initial state of a fence.
#[derive(Debug, Clone, Copy, PartialEq, Eq, Structural)]
pub enum VkFenceCreateFlagBits {
    VK_FENCE_CREATE_SIGNALED_BIT,
    VK_FENCE_CREATE_FLAG_BITS_MAX_ENUM,
}

impl VkFenceCreateFlagBits {
    /// The bit mask of this flag.
    pub open spec fn spec_bits(self) -> u32 {
        match self {
            VkFenceCreateFlagBits::VK_FENCE_CREATE_SIGNALED_BIT => 0x00000001u32,
            VkFenceCreateFlagBits::VK_FENCE_CREATE_FLAG_BITS_MAX_ENUM => 0x7FFFFFFFu32,
        }
    }

    /// The bit mask of this flag.
    #[verifier::when_used_as_spec(spec_bits)]
    pub fn bits(self) -> (r: u32)
        ensures
            r == self.spec_bits(),
    {
        match self {
            VkFenceCreateFlagBits::VK_FENCE_CREATE_SIGNALED_BIT => 0x00000001u32,
            VkFenceCreateFlagBits::VK_FENCE_CREATE_FLAG_BITS_MAX_ENUM => 0x7FFFFFFFu32,
        }
    }
}

/// Kinds of memory access that a barrier orders.
#[derive(Debug, Clone, Copy, PartialEq, Eq, Structural)]
pub enum VkAccessFlagBits {
    VK_ACCESS_INDIRECT_COMMAND_READ_BIT,
    VK_ACCESS_INDEX_READ_BIT,
    VK_ACCESS_VERTEX_ATTRIBUTE_READ_BIT,
    VK_ACCESS_UNIFORM_READ_BIT,
    VK_ACCESS_INPUT_ATTACHMENT_READ_BIT,
    VK_ACCESS_SHADER_READ_BIT,
    VK_ACCESS_SHADER_WRITE_BIT,
    VK_ACCESS_COLOR_ATTACHMENT_READ_BIT,
    VK_ACCESS_COLOR_ATTACHMENT_WRITE_BIT,
    VK_ACCESS_DEPTH_STENCIL_ATTACHMENT_READ_BIT,
    VK_ACCESS_DEPTH_STENCIL_ATTACHMENT_WRITE_BIT,
    VK_ACCESS_TRANSFER_READ_BIT,
    VK_ACCESS_TRANSFER_WRITE_BIT,
    VK_ACCESS_HOST_READ_BIT,
    VK_ACCESS_HOST_WRITE_BIT,
    VK_ACCESS_MEMORY_READ_BIT,
    VK_ACCESS_MEMORY_WRITE_BIT,
    VK_ACCESS_TRANSFORM_FEEDBACK_WRITE_BIT_EXT,
    VK_ACCESS_TRANSFORM_FEEDBACK_COUNTER_READ_BIT_EXT,
    VK_ACCESS_TRANSFORM_FEEDBACK_COUNTER_WRITE_BIT_EXT,
    VK_ACCESS_CONDITIONAL_RENDERING_READ_BIT_EXT,
    VK_ACCESS_COMMAND_PROCESS_READ_BIT_NVX,
    VK_ACCESS_COMMAND_PROCESS_WRITE_BIT_NVX,
    VK_ACCESS_COLOR_ATTACHMENT_READ_NONCOHERENT_BIT_EXT,
    VK_ACCESS_SHADING_RATE_IMAGE_READ_BIT_NV,
    VK_ACCESS_ACCELERATION_STRUCTURE_READ_BIT_NV,
    VK_ACCESS_ACCELERATION_STRUCTURE_WRITE_BIT_NV,
    VK_ACCESS_FRAGMENT_DENSITY_MAP_READ_BIT_EXT,
    VK_ACCESS_FLAG_BITS_MAX_ENUM,
}

impl VkAccessFlagBits {
    /// The bit mask of this flag.
    pub open spec fn spec_bits(self) -> u32 {
        match self {
            VkAccessFlagBits::VK_ACCESS_INDIRECT_COMMAND_READ_BIT => 0x00000001u32,
            VkAccessFlagBits::VK_ACCESS_INDEX_READ_BIT => 0x00000002u32,
            VkAccessFlagBits::VK_ACCESS_VERTEX_ATTRIBUTE_READ_BIT => 0x00000004u32,
            VkAccessFlagBits::VK_ACCESS_UNIFORM_READ_BIT => 0x00000008u32,
            VkAccessFlagBits::VK_ACCESS_INPUT_ATTACHMENT_READ_BIT => 0x00000010u32,
            VkAccessFlagBits::VK_ACCESS_SHADER_READ_BIT => 0x00000020u32,
            VkAccessFlagBits::VK_ACCESS_SHADER_WRITE_BIT => 0x00000040u32,
            VkAccessFlagBits::VK_ACCESS_COLOR_ATTACHMENT_READ_BIT => 0x00000080u32,
            VkAccessFlagBits::VK_ACCESS_COLOR_ATTACHMENT_WRITE_BIT => 0x00000100u32,
            VkAccessFlagBits::VK_ACCESS_DEPTH_STENCIL_ATTACHMENT_READ_BIT => 0x00000200u32,
            VkAccessFlagBits::VK_ACCESS_DEPTH_STENCIL_ATTACHMENT_WRITE_BIT => 0x00000400u32,
            VkAccessFlagBits::VK_ACCESS_TRANSFER_READ_BIT => 0x00000800u32,
            VkAccessFlagBits::VK_ACCESS_TRANSFER_WRITE_BIT => 0x00001000u32,
            VkAccessFlagBits::VK_ACCESS_HOST_READ_BIT => 0x00002000u32,
            VkAccessFlagBits::VK_ACCESS_HOST_WRITE_BIT => 0x00004000u32,
            VkAccessFlagBits::VK_ACCESS_MEMORY_READ_BIT => 0x00008000u32,
            VkAccessFlagBits::VK_ACCESS_MEMORY_WRITE_BIT => 0x00010000u32,
            VkAccessFlagBits::VK_ACCESS_TRANSFORM_FEEDBACK_WRITE_BIT_EXT => 0x02000000u32,
            VkAccessFlagBits::VK_ACCESS_TRANSFORM_FEEDBACK_COUNTER_READ_BIT_EXT => 0x04000000u32,
            VkAccessFlagBits::VK_ACCESS_TRANSFORM_FEEDBACK_COUNTER_WRITE_BIT_EXT => 0x08000000u32,
            VkAccessFlagBits::VK_ACCESS_CONDITIONAL_RENDERING_READ_BIT_EXT => 0x00100000u32,
            VkAccessFlagBits::VK_ACCESS_COMMAND_PROCESS_READ_BIT_NVX => 0x00020000u32,
            VkAccessFlagBits::VK_ACCESS_COMMAND_PROCESS_WRITE_BIT_NVX => 0x00040000u32,
            VkAccessFlagBits::VK_ACCESS_COLOR_ATTACHMENT_READ_NONCOHERENT_BIT_EXT => 0x00080000u32,
            VkAccessFlagBits::VK_ACCESS_SHADING_RATE_IMAGE_READ_BIT_NV => 0x00800000u32,
            VkAccessFlagBits::VK_ACCESS_ACCELERATION_STRUCTURE_READ_BIT_NV => 0x00200000u32,
            VkAccessFlagBits::VK_ACCESS_ACCELERATION_STRUCTURE_WRITE_BIT_NV => 0x00400000u32,
            VkAccessFlagBits::VK_ACCESS_FRAGMENT_DENSITY_MAP_READ_BIT_EXT => 0x01000000u32,
            VkAccessFlagBits::VK_ACCESS_FLAG_BITS_MAX_ENUM => 0x7FFFFFFFu32,
        }
    }

    /// The bit mask of this flag.
    #[verifier::when_used_as_spec(spec_bits)]
    pub fn bits(self) -> (r: u32)
        ensures
            r == self.spec_bits(),
    {
        match self {
            VkAccessFlagBits::VK_ACCESS_INDIRECT_COMMAND_READ_BIT => 0x00000001u32,
            VkAccessFlagBits::VK_ACCESS_INDEX_READ_BIT => 0x00000002u32,
            VkAccessFlagBits::VK_ACCESS_VERTEX_ATTRIBUTE_READ_BIT => 0x00000004u32,
            VkAccessFlagBits::VK_ACCESS_UNIFORM_READ_BIT => 0x00000008u32,
            VkAccessFlagBits::VK_ACCESS_INPUT_ATTACHMENT_READ_BIT => 0x00000010u32,
            VkAccessFlagBits::VK_ACCESS_SHADER_READ_BIT => 0x00000020u32,
            VkAccessFlagBits::VK_ACCESS_SHADER_WRITE_BIT => 0x00000040u32,
            VkAccessFlagBits::VK_ACCESS_COLOR_ATTACHMENT_READ_BIT => 0x00000080u32,
            VkAccessFlagBits::VK_ACCESS_COLOR_ATTACHMENT_WRITE_BIT => 0x00000100u32,
            VkAccessFlagBits::VK_ACCESS_DEPTH_STENCIL_ATTACHMENT_READ_BIT => 0x00000200u32,
            VkAccessFlagBits::VK_ACCESS_DEPTH_STENCIL_ATTACHMENT_WRITE_BIT => 0x00000400u32,
            VkAccessFlagBits::VK_ACCESS_TRANSFER_READ_BIT => 0x00000800u32,
            VkAccessFlagBits::VK_ACCESS_TRANSFER_WRITE_BIT => 0x00001000u32,
            VkAccessFlagBits::VK_ACCESS_HOST_READ_BIT => 0x00002000u32,
            VkAccessFlagBits::VK_ACCESS_HOST_WRITE_BIT => 0x00004000u32,
            VkAccessFlagBits::VK_ACCESS_MEMORY_READ_BIT => 0x00008000u32,
            VkAccessFlagBits::VK_ACCESS_MEMORY_WRITE_BIT => 0x00010000u32,
            VkAccessFlagBits::VK_ACCESS_TRANSFORM_FEEDBACK_WRITE_BIT_EXT => 0x02000000u32,
            VkAccessFlagBits::VK_ACCESS_TRANSFORM_FEEDBACK_COUNTER_READ_BIT_EXT => 0x04000000u32,
            VkAccessFlagBits::VK_ACCESS_TRANSFORM_FEEDBACK_COUNTER_WRITE_BIT_EXT => 0x08000000u32,
            VkAccessFlagBits::VK_ACCESS_CONDITIONAL_RENDERING_READ_BIT_EXT => 0x00100000u32,
            VkAccessFlagBits::VK_ACCESS_COMMAND_PROCESS_READ_BIT_NVX => 0x00020000u32,
            VkAccessFlagBits::VK_ACCESS_COMMAND_PROCESS_WRITE_BIT_NVX => 0x00040000u32,
            VkAccessFlagBits::VK_ACCESS_COLOR_ATTACHMENT_READ_NONCOHERENT_BIT_EXT => 0x00080000u32,
            VkAccessFlagBits::VK_ACCESS_SHADING_RATE_IMAGE_READ_BIT_NV => 0x00800000u32,
            VkAccessFlagBits::VK_ACCESS_ACCELERATION_STRUCTURE_READ_BIT_NV => 0x00200000u32,
            VkAccessFlagBits::VK_ACCESS_ACCELERATION_STRUCTURE_WRITE_BIT_NV => 0x00400000u32,
            VkAccessFlagBits::VK_ACCESS_FRAGMENT_DENSITY_MAP_READ_BIT_EXT => 0x01000000u32,
            VkAccessFlagBits::VK_ACCESS_FLAG_BITS_MAX_ENUM => 0x7FFFFFFFu32,
        }
    }
}

/// Pipeline stages that a barrier orders.
#[derive(Debug, Clone, Copy, PartialEq, Eq, Structural)]
pub enum VkPipelineStageFlagBits {
    VK_PIPELINE_STAGE_TOP_OF_PIPE_BIT,
    VK_PIPELINE_STAGE_DRAW_INDIRECT_BIT,
    VK_PIPELINE_STAGE_VERTEX_INPUT_BIT,
    VK_PIPELINE_STAGE_VERTEX_SHADER_BIT,
    VK_PIPELINE_STAGE_TESSELLATION_CONTROL_SHADER_BIT,
    VK_PIPELINE_STAGE_TESSELLATION_EVALUATION_SHADER_BIT,
    VK_PIPELINE_STAGE_GEOMETRY_SHADER_BIT,
    VK_PIPELINE_STAGE_FRAGMENT_SHADER_BIT,
    VK_PIPELINE_STAGE_EARLY_FRAGMENT_TESTS_BIT,
    VK_PIPELINE_STAGE_LATE_FRAGMENT_TESTS_BIT,
    VK_PIPELINE_STAGE_COLOR_ATTACHMENT_OUTPUT_BIT,
    VK_PIPELINE_STAGE_COMPUTE_SHADER_BIT,
    VK_PIPELINE_STAGE_TRANSFER_BIT,
    VK_PIPELINE_STAGE_BOTTOM_OF_PIPE_BIT,
    VK_PIPELINE_STAGE_HOST_BIT,
    VK_PIPELINE_STAGE_ALL_GRAPHICS_BIT,
    VK_PIPELINE_STAGE_ALL_COMMANDS_BIT,
    VK_PIPELINE_STAGE_TRANSFORM_FEEDBACK_BIT_EXT,
    VK_PIPELINE_STAGE_CONDITIONAL_RENDERING_BIT_EXT,
    VK_PIPELINE_STAGE_COMMAND_PROCESS_BIT_NVX,
    VK_PIPELINE_STAGE_SHADING_RATE_IMAGE_BIT_NV,
    VK_PIPELINE_STAGE_RAY_TRACING_SHADER_BIT_NV,
    VK_PIPELINE_STAGE_ACCELERATION_STRUCTURE_BUILD_BIT_NV,
    VK_PIPELINE_STAGE_TASK_SHADER_BIT_NV,
    VK_PIPELINE_STAGE_MESH_SHADER_BIT_NV,
    VK_PIPELINE_STAGE_FRAGMENT_DENSITY_PROCESS_BIT_EXT,
    VK_PIPELINE_STAGE_FLAG_BITS_MAX_ENUM,
}

impl VkPipelineStageFlagBits {
    /// The bit mask of this flag.
    pub open spec fn spec_bits(self) -> u32 {
        match self {
            VkPipelineStageFlagBits::VK_PIPELINE_STAGE_TOP_OF_PIPE_BIT => 0x00000001u32,
            VkPipelineStageFlagBits::VK_PIPELINE_STAGE_DRAW_INDIRECT_BIT => 0x00000002u32,
            VkPipelineStageFlagBits::VK_PIPELINE_STAGE_VERTEX_INPUT_BIT => 0x00000004u32,
            VkPipelineStageFlagBits::VK_PIPELINE_STAGE_VERTEX_SHADER_BIT => 0x00000008u32,
            VkPipelineStageFlagBits::VK_PIPELINE_STAGE_TESSELLATION_CONTROL_SHADER_BIT => 0x00000010u32,
            VkPipelineStageFlagBits::VK_PIPELINE_STAGE_TESSELLATION_EVALUATION_SHADER_BIT => 0x00000020u32,
            VkPipelineStageFlagBits::VK_PIPELINE_STAGE_GEOMETRY_SHADER_BIT => 0x00000040u32,
            VkPipelineStageFlagBits::VK_PIPELINE_STAGE_FRAGMENT_SHADER_BIT => 0x00000080u32,
            VkPipelineStageFlagBits::VK_PIPELINE_STAGE_EARLY_FRAGMENT_TESTS_BIT => 0x00000100u32,
            VkPipelineStageFlagBits::VK_PIPELINE_STAGE_LATE_FRAGMENT_TESTS_BIT => 0x00000200u32,
            VkPipelineStageFlagBits::VK_PIPELINE_STAGE_COLOR_ATTACHMENT_OUTPUT_BIT => 0x00000400u32,
            VkPipelineStageFlagBits::VK_PIPELINE_STAGE_COMPUTE_SHADER_BIT => 0x00000800u32,
            VkPipelineStageFlagBits::VK_PIPELINE_STAGE_TRANSFER_BIT => 0x00001000u32,
            VkPipelineStageFlagBits::VK_PIPELINE_STAGE_BOTTOM_OF_PIPE_BIT => 0x00002000u32,
            VkPipelineStageFlagBits::VK_PIPELINE_STAGE_HOST_BIT => 0x00004000u32,
            VkPipelineStageFlagBits::VK_PIPELINE_STAGE_ALL_GRAPHICS_BIT => 0x00008000u32,
            VkPipelineStageFlagBits::VK_PIPELINE_STAGE_ALL_COMMANDS_BIT => 0x00010000u32,
            VkPipelineStageFlagBits::VK_PIPELINE_STAGE_TRANSFORM_FEEDBACK_BIT_EXT => 0x01000000u32,
            VkPipelineStageFlagBits::VK_PIPELINE_STAGE_CONDITIONAL_RENDERING_BIT_EXT => 0x00040000u32,
            VkPipelineStageFlagBits::VK_PIPELINE_STAGE_COMMAND_PROCESS_BIT_NVX => 0x00020000u32,
            VkPipelineStageFlagBits::VK_PIPELINE_STAGE_SHADING_RATE_IMAGE_BIT_NV => 0x00400000u32,
            VkPipelineStageFlagBits::VK_PIPELINE_STAGE_RAY_TRACING_SHADER_BIT_NV => 0x00200000u32,
            VkPipelineStageFlagBits::VK_PIPELINE_STAGE_ACCELERATION_STRUCTURE_BUILD_BIT_NV => 0x02000000u32,
            VkPipelineStageFlagBits::VK_PIPELINE_STAGE_TASK_SHADER_BIT_NV => 0x00080000u32,
            VkPipelineStageFlagBits::VK_PIPELINE_STAGE_MESH_SHADER_BIT_NV => 0x00100000u32,
            VkPipelineStageFlagBits::VK_PIPELINE_STAGE_FRAGMENT_DENSITY_PROCESS_BIT_EXT => 0x00800000u32,
            VkPipelineStageFlagBits::VK_PIPELINE_STAGE_FLAG_BITS_MAX_ENUM => 0x7FFFFFFFu32,
        }
    }

    /// The bit mask of this flag.
    #[verifier::when_used_as_spec(spec_bits)]
    pub fn bits(self) -> (r: u32)
        ensures
            r == self.spec_bits(),
    {
        match self {
            VkPipelineStageFlagBits::VK_PIPELINE_STAGE_TOP_OF_PIPE_BIT => 0x00000001u32,
            VkPipelineStageFlagBits::VK_PIPELINE_STAGE_DRAW_INDIRECT_BIT => 0x00000002u32,
            VkPipelineStageFlagBits::VK_PIPELINE_STAGE_VERTEX_INPUT_BIT => 0x00000004u32,
            VkPipelineStageFlagBits::VK_PIPELINE_STAGE_VERTEX_SHADER_BIT => 0x00000008u32,
            VkPipelineStageFlagBits::VK_PIPELINE_STAGE_TESSELLATION_CONTROL_SHADER_BIT => 0x00000010u32,
            VkPipelineStageFlagBits::VK_PIPELINE_STAGE_TESSELLATION_EVALUATION_SHADER_BIT => 0x00000020u32,
            VkPipelineStageFlagBits::VK_PIPELINE_STAGE_GEOMETRY_SHADER_BIT => 0x00000040u32,
            VkPipelineStageFlagBits::VK_PIPELINE_STAGE_FRAGMENT_SHADER_BIT => 0x00000080u32,
            VkPipelineStageFlagBits::VK_PIPELINE_STAGE_EARLY_FRAGMENT_TESTS_BIT => 0x00000100u32,
            VkPipelineStageFlagBits::VK_PIPELINE_STAGE_LATE_FRAGMENT_TESTS_BIT => 0x00000200u32,
            VkPipelineStageFlagBits::VK_PIPELINE_STAGE_COLOR_ATTACHMENT_OUTPUT_BIT => 0x00000400u32,
            VkPipelineStageFlagBits::VK_PIPELINE_STAGE_COMPUTE_SHADER_BIT => 0x00000800u32,
            VkPipelineStageFlagBits::VK_PIPELINE_STAGE_TRANSFER_BIT => 0x00001000u32,
            VkPipelineStageFlagBits::VK_PIPELINE_STAGE_BOTTOM_OF_PIPE_BIT => 0x00002000u32,
            VkPipelineStageFlagBits::VK_PIPELINE_STAGE_HOST_BIT => 0x00004000u32,
            VkPipelineStageFlagBits::VK_PIPELINE_STAGE_ALL_GRAPHICS_BIT => 0x00008000u32,
            VkPipelineStageFlagBits::VK_PIPELINE_STAGE_ALL_COMMANDS_BIT => 0x00010000u32,
            VkPipelineStageFlagBits::VK_PIPELINE_STAGE_TRANSFORM_FEEDBACK_BIT_EXT => 0x01000000u32,
            VkPipelineStageFlagBits::VK_PIPELINE_STAGE_CONDITIONAL_RENDERING_BIT_EXT => 0x00040000u32,
            VkPipelineStageFlagBits::VK_PIPELINE_STAGE_COMMAND_PROCESS_BIT_NVX => 0x00020000u32,
            VkPipelineStageFlagBits::VK_PIPELINE_STAGE_SHADING_RATE_IMAGE_BIT_NV => 0x00400000u32,
            VkPipelineStageFlagBits::VK_PIPELINE_STAGE_RAY_TRACING_SHADER_BIT_NV => 0x00200000u32,
            VkPipelineStageFlagBits::VK_PIPELINE_STAGE_ACCELERATION_STRUCTURE_BUILD_BIT_NV => 0x02000000u32,
            VkPipelineStageFlagBits::VK_PIPELINE_STAGE_TASK_SHADER_BIT_NV => 0x00080000u32,
            VkPipelineStageFlagBits::VK_PIPELINE_STAGE_MESH_SHADER_BIT_NV => 0x00100000u32,
            VkPipelineStageFlagBits::VK_PIPELINE_STAGE_FRAGMENT_DENSITY_PROCESS_BIT_EXT => 0x00800000u32,
            VkPipelineStageFlagBits::VK_PIPELINE_STAGE_FLAG_BITS_MAX_ENUM => 0x7FFFFFFFu32,
        }
    }
}

/// Kind of pipeline that a binding refers to.
#[derive(Debug, Clone, Copy, PartialEq, Eq, Structural)]
pub enum VkPipelineBindPoint {
    VK_PIPELINE_BIND_POINT_GRAPHICS,
    VK_PIPELINE_BIND_POINT_COMPUTE,
    VK_PIPELINE_BIND_POINT_RAY_TRACING_NV,
    VK_PIPELINE_BIND_POINT_MAX_ENUM,
}

impl VkPipelineBindPoint {
    /// The number that the driver uses for this variant.
    pub open spec fn spec_value(self) -> i32 {
        match self {
            VkPipelineBindPoint::VK_PIPELINE_BIND_POINT_GRAPHICS => 0i32,
            VkPipelineBindPoint::VK_PIPELINE_BIND_POINT_COMPUTE => 1i32,
            VkPipelineBindPoint::VK_PIPELINE_BIND_POINT_RAY_TRACING_NV => 1000165000i32,
            VkPipelineBindPoint::VK_PIPELINE_BIND_POINT_MAX_ENUM => 0x7FFFFFFFi32,
        }
    }

    /// The number that the driver uses for this variant.
    #[verifier::when_used_as_spec(spec_value)]
    pub fn value(self) -> (r: i32)
        ensures
            r == self.spec_value(),
    {
        match self {
            VkPipelineBindPoint::VK_PIPELINE_BIND_POINT_GRAPHICS => 0i32,
            VkPipelineBindPoint::VK_PIPELINE_BIND_POINT_COMPUTE => 1i32,
            VkPipelineBindPoint::VK_PIPELINE_BIND_POINT_RAY_TRACING_NV => 1000165000i32,
            VkPipelineBindPoint::VK_PIPELINE_BIND_POINT_MAX_ENUM => 0x7FFFFFFFi32,
        }
    }
}

} // verus!
