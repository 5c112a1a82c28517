//! The staging buffer with its regions, the compute pipeline over it, and
//! the dispatch of work: what is recorded, what is submitted, and in which
//! order.

pub mod command;
pub mod compute;
pub mod constants;
pub mod masks;
pub mod region;
pub mod staging;
pub mod submission;

pub use self::command::{
    CommandDispatch, CommandDispatchSetup, CommandDispatchSetupView, dispatch_recording,
    DispatchStage, WorkgroupCount,
};
pub use self::compute::{
    ComputePipeline, ComputePipelineSetup, ComputePipelineSetupView, covers, descriptor_writes,
    entry_point, layout_bindings, PipelineStage, push_constant_range, specialization_entries,
};
pub use self::constants::{
    ConstantEntry, constants_fit, images, lemma_no_constants, lemma_packed_size_monotone, pack,
    packed_size, packed_within, push_constants_fit, spec_constants_fit,
    spec_push_constants_fit, specialization_map,
};
pub use self::masks::{
    ACCESS_HOST_READ, ACCESS_HOST_WRITE, ACCESS_SHADER_READ, ACCESS_SHADER_WRITE,
    ACCESS_TRANSFER_READ, ACCESS_TRANSFER_WRITE, DEVICE_BUFFER_USAGE, DEVICE_MEMORY_PROPERTIES,
    FENCE_SIGNALED, HOST_BUFFER_USAGE, HOST_MEMORY_PROPERTIES, lemma_masks, SHADER_STAGE_COMPUTE,
    STAGE_COMPUTE_SHADER, STAGE_HOST, STAGE_TRANSFER,
};
pub use self::region::{
    AccessStage, allocate_info, begin_info, buffer_barrier, fence_info, RegionAccess, RegionStage,
    StagingBufferRegion, StagingBufferRegionSetup,
};
pub use self::staging::{
    laid_out, region_sizes, regions_release, regions_unwind, sizes_of, StagingBuffer,
    StagingBufferSetup, StagingBufferSetupView, StagingBufferView, StagingStep,
};
pub use self::submission::{Submission, SubmissionKind, SubmissionStage};
