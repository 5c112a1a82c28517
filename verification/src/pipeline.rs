//! The choice of a shader and of its constants, the pipeline that comes of
//! it, and the choice of a grid of workgroups to dispatch on it.

use vstd::prelude::*;
use std::sync::Arc;
use crate::buffer::Buffer;
use crate::context::Context;
use crate::device::{ShaderModule, ShaderModuleSetup, ShaderModuleSource, ShaderModuleState};
use crate::dispatch::{
    images, lemma_no_constants, spec_constants_fit, spec_push_constants_fit, CommandDispatch,
    CommandDispatchSetup, CommandDispatchSetupView, ComputePipeline, ComputePipelineSetup,
    ComputePipelineSetupView, ConstantEntry, StagingBuffer, Submission, SubmissionKind,
    SubmissionStage, WorkgroupCount,
};
use crate::driver::{Call, Reply, ReplyKind};
use crate::error::{Error, ErrorCode};
use crate::shared::share;
use crate::vk::enums::VkResult;

verus! {

/// The choice of what a pipeline is made of. `ShaderType` is `()` until a
/// shader is chosen, and `SpecializationType` is `()` until specialization
/// constants are chosen; the pipeline can be built once a shader is.
#[derive(Debug)]
pub struct PipelineBuilder<'a, ShaderType, SpecializationType> {
    shader: ShaderType,
    specialization: SpecializationType,
    push_constant_size: u32,
    buffer: &'a Arc<Buffer>,
}

impl<'a> PipelineBuilder<'a, (), ()> {
    /// The builder of a pipeline over `buffer`, with nothing chosen yet.
    pub fn new(buffer: &'a Arc<Buffer>) -> (r: Self)
        ensures
            r.buffer() == buffer,
            r.push_constant_bytes() == 0,
    {
        PipelineBuilder { shader: (), specialization: (), push_constant_size: 0, buffer }
    }
}

impl<'a, ShaderType, SpecializationType> PipelineBuilder<'a, ShaderType, SpecializationType> {
    /// The buffer that the pipeline works on.
    pub closed spec fn buffer(&self) -> &Arc<Buffer> {
        self.buffer
    }

    /// The shader that has been chosen.
    pub closed spec fn chosen_shader(&self) -> ShaderType {
        self.shader
    }

    /// The specialization constants that have been chosen.
    pub closed spec fn chosen_specialization(&self) -> SpecializationType {
        self.specialization
    }

    /// The room for push constants that has been chosen, in bytes.
    pub closed spec fn push_constant_bytes(&self) -> u32 {
        self.push_constant_size
    }

    /// Chooses room for `bytes` bytes of push constants: the layout of the
    /// pipeline gets one range of that size for the compute stage, and
    /// every dispatch on the pipeline may push up to that many bytes.
    /// Without this choice the pipeline has no room, and no dispatch on it
    /// may push constants.
    pub fn push_constant_size(self, bytes: u32) -> (r: Self)
        ensures
            r.buffer() == self.buffer(),
            r.chosen_shader() == self.chosen_shader(),
            r.chosen_specialization() == self.chosen_specialization(),
            r.push_constant_bytes() == bytes,
    {
        PipelineBuilder {
            shader: self.shader,
            specialization: self.specialization,
            push_constant_size: bytes,
            buffer: self.buffer,
        }
    }
}

impl<'a, SpecializationType> PipelineBuilder<'a, (), SpecializationType> {
    /// Chooses the shader in the file `filename`.
    pub fn shader(self, filename: String) -> (r: PipelineBuilder<
        'a,
        ShaderModuleSource,
        SpecializationType,
    >)
        ensures
            r.buffer() == self.buffer(),
            r.chosen_shader() == ShaderModuleSource::FilePath(filename),
            r.chosen_specialization() == self.chosen_specialization(),
            r.push_constant_bytes() == self.push_constant_bytes(),
    {
        PipelineBuilder {
            shader: ShaderModuleSource::from_file(filename),
            specialization: self.specialization,
            push_constant_size: self.push_constant_size,
            buffer: self.buffer,
        }
    }

    /// Chooses the shader whose code is `bytes`.
    pub fn shader_bytes(self, bytes: Vec<u8>) -> (r: PipelineBuilder<
        'a,
        ShaderModuleSource,
        SpecializationType,
    >)
        ensures
            r.buffer() == self.buffer(),
            r.chosen_shader() == ShaderModuleSource::Bytes(bytes),
            r.chosen_specialization() == self.chosen_specialization(),
            r.push_constant_bytes() == self.push_constant_bytes(),
    {
        PipelineBuilder {
            shader: ShaderModuleSource::from_bytes(bytes),
            specialization: self.specialization,
            push_constant_size: self.push_constant_size,
            buffer: self.buffer,
        }
    }
}

impl<'a, ShaderType> PipelineBuilder<'a, ShaderType, ()> {
    /// Chooses the specialization constants `constants`.
    pub fn specialization(self, constants: Vec<ConstantEntry>) -> (r: PipelineBuilder<
        'a,
        ShaderType,
        Vec<ConstantEntry>,
    >)
        ensures
            r.buffer() == self.buffer(),
            r.chosen_shader() == self.chosen_shader(),
            r.chosen_specialization() == constants,
            r.push_constant_bytes() == self.push_constant_bytes(),
    {
        PipelineBuilder {
            shader: self.shader,
            specialization: constants,
            push_constant_size: self.push_constant_size,
            buffer: self.buffer,
        }
    }
}

impl<'a> PipelineBuilder<'a, ShaderModuleSource, ()> {
    /// Begins the making of the pipeline, without specialization
    /// constants.
    pub fn build(self) -> (r: PipelineSetup)
        requires
            self.buffer().staging_buffer()@.regions.len() <= u32::MAX,
        ensures
            r.begun(
                *self.buffer(),
                self.chosen_shader(),
                Seq::empty(),
                self.push_constant_bytes(),
            ),
    {
        proof {
            lemma_no_constants();
        }
        let constants: Vec<ConstantEntry> = Vec::new();
        assert(constants@ =~= Seq::<ConstantEntry>::empty());
        Pipeline::new(self.buffer, self.shader, constants, self.push_constant_size)
    }
}

impl<'a> PipelineBuilder<'a, ShaderModuleSource, Vec<ConstantEntry>> {
    /// Begins the making of the pipeline, with the chosen specialization
    /// constants.
    pub fn build(self) -> (r: PipelineSetup)
        requires
            self.buffer().staging_buffer()@.regions.len() <= u32::MAX,
            spec_constants_fit(self.chosen_specialization()@),
        ensures
            r.begun(
                *self.buffer(),
                self.chosen_shader(),
                self.chosen_specialization()@,
                self.push_constant_bytes(),
            ),
    {
        Pipeline::new(self.buffer, self.shader, self.specialization, self.push_constant_size)
    }
}

/// A shader made into a compute pipeline over a buffer.
#[derive(Debug)]
pub struct Pipeline {
    pub buffer: Arc<Buffer>,
    pub shader_module: ShaderModule,
    pub compute_pipeline: Arc<ComputePipeline>,
}

impl Pipeline {
    /// Begins the making of a pipeline over `buffer` from the shader
    /// `shader`, with the specialization constants `spec_constants` and
    /// room for `push_constant_size` bytes of push constants.
    pub fn new(
        buffer: &Arc<Buffer>,
        shader: ShaderModuleSource,
        spec_constants: Vec<ConstantEntry>,
        push_constant_size: u32,
    ) -> (r: PipelineSetup)
        requires
            buffer.staging_buffer()@.regions.len() <= u32::MAX,
            spec_constants_fit(spec_constants@),
        ensures
            r.begun(*buffer, shader, spec_constants@, push_constant_size),
    {
        let setup = ShaderModule::new(buffer.context().device(), shader);
        PipelineSetup {
            buffer: share(buffer),
            spec_constants,
            push_constant_size,
            step: PipelineStep::Shader(setup),
        }
    }

    /// Begins a dispatch of `count_x` workgroups in one dimension without
    /// push constants: the dispatch is made, run once, and given back.
    pub fn dispatch(&self, count_x: usize) -> (r: PipelineDispatch)
        requires
            count_x <= u32::MAX,
        ensures
            r.step() matches DispatchStep::Make(setup) && setup@
                == CommandDispatchSetupView::begin(
                *self.compute_pipeline,
                WorkgroupCount { x: count_x as u32, y: 1, z: 1 },
                Seq::empty(),
            ),
    {
        proof {
            lemma_no_constants();
        }
        let constants: Vec<ConstantEntry> = Vec::new();
        assert(constants@ =~= Seq::<ConstantEntry>::empty());
        let count = WorkgroupCount { x: count_x as u32, y: 1, z: 1 };
        PipelineDispatch {
            step: DispatchStep::Make(
                CommandDispatch::new(share(&self.compute_pipeline), count, constants),
            ),
        }
    }

    /// The calls that give the pipeline back: the compute pipeline is
    /// released, then the shader module.
    pub open spec fn release_calls(&self) -> Seq<Call> {
        self.compute_pipeline.release_calls() + self.shader_module.release_calls()
    }

    /// Releases the pipeline: says which calls give it back, and forgets
    /// the handles of the compute pipeline and of the shader module.
    pub fn release(&mut self) -> (calls: Vec<Call>)
        ensures
            calls@ == old(self).release_calls(),
            final(self).compute_pipeline.released(),
            final(self).shader_module.handle.address == 0,
            final(self).release_calls() == Seq::<Call>::empty(),
            final(self).buffer == old(self).buffer,
    {
        let mut released = ComputePipeline {
            handle: self.compute_pipeline.handle,
            cache: self.compute_pipeline.cache,
            layout: self.compute_pipeline.layout,
            descriptor_pool: self.compute_pipeline.descriptor_pool,
            descriptor_set_layout: self.compute_pipeline.descriptor_set_layout,
            descriptor_set: self.compute_pipeline.descriptor_set,
            staging_buffer: share(&self.compute_pipeline.staging_buffer),
            shader_module: self.compute_pipeline.shader_module,
            push_constant_size: self.compute_pipeline.push_constant_size,
        };
        let mut calls = released.release();
        let mut shader_module = self.shader_module;
        let mut more = shader_module.release();
        calls.append(&mut more);
        self.shader_module = shader_module;
        self.compute_pipeline = Arc::new(released);
        assert(self.release_calls() =~= Seq::<Call>::empty());
        calls
    }
}

/// What the making of a pipeline is doing. A step that has failed stays.
#[derive(Debug)]
pub enum PipelineStep {
    /// The shader module is being made.
    Shader(ShaderModuleSetup),
    /// The compute pipeline is being made from the shader module.
    Compute(ShaderModule, ComputePipelineSetup),
    /// The pipeline is made.
    Ready(Pipeline),
}

/// The making of a [`Pipeline`].
#[derive(Debug)]
pub struct PipelineSetup {
    buffer: Arc<Buffer>,
    spec_constants: Vec<ConstantEntry>,
    push_constant_size: u32,
    step: PipelineStep,
}

impl PipelineSetup {
    #[verifier::type_invariant]
    spec fn inv(self) -> bool {
        &&& self.buffer.staging_buffer()@.regions.len() <= u32::MAX
        &&& match self.step {
            PipelineStep::Shader(setup) => spec_constants_fit(self.spec_constants@)
                && setup.device == self.buffer.context().device && !(setup.state is Ready),
            PipelineStep::Compute(_, setup) => !(setup@.stage is Ready) && setup@.staging_buffer
                == self.buffer.staging_buffer()@,
            PipelineStep::Ready(_) => true,
        }
    }

    /// The buffer that the pipeline works on.
    pub closed spec fn buffer(&self) -> Arc<Buffer> {
        self.buffer
    }

    /// The specialization constants, as long as the shader module is
    /// being made.
    pub closed spec fn spec_constants(&self) -> Seq<ConstantEntry> {
        self.spec_constants@
    }

    /// The room for push constants, in bytes.
    pub closed spec fn push_constant_size(&self) -> u32 {
        self.push_constant_size
    }

    /// What the making is doing.
    pub closed spec fn step(&self) -> PipelineStep {
        self.step
    }

    /// Whether this is the making of a pipeline over `buffer` from
    /// `shader`, of which nothing has happened yet.
    pub open spec fn begun(
        &self,
        buffer: Arc<Buffer>,
        shader: ShaderModuleSource,
        spec_constants: Seq<ConstantEntry>,
        push_constant_size: u32,
    ) -> bool {
        &&& self.buffer() == buffer
        &&& self.spec_constants() == spec_constants
        &&& self.push_constant_size() == push_constant_size
        &&& self.step() == PipelineStep::Shader(
            ShaderModuleSetup::begin(buffer.context().device, shader),
        )
    }

    /// The shape of the reply that is waited for; none once the making has
    /// ended.
    pub open spec fn awaits(&self) -> Option<ReplyKind> {
        match self.step() {
            PipelineStep::Shader(setup) => setup.awaits(),
            PipelineStep::Compute(_, setup) => setup@.awaits(),
            PipelineStep::Ready(_) => None,
        }
    }

    /// The call to make now: the pending call of the step that is being
    /// taken.
    pub fn call(&self) -> (c: Option<Call>)
        ensures
            match self.step() {
                PipelineStep::Shader(setup) => setup.calls(c),
                PipelineStep::Compute(_, setup) => setup@.calls(c),
                PipelineStep::Ready(_) => c.is_none(),
            },
    {
        match &self.step {
            PipelineStep::Shader(setup) => setup.call(),
            PipelineStep::Compute(_, setup) => setup.call(),
            PipelineStep::Ready(_) => None,
        }
    }

    /// Takes the answer to the pending call.
    ///
    /// The shader module is made first. Once it is made, the making of the
    /// compute pipeline begins, over the staging buffer of the buffer,
    /// with the specialization constants and the room for push constants.
    /// Once that is made, the pipeline is. A step that fails ends the
    /// making.
    pub fn reply(self, reply: Reply) -> (next: Self)
        requires
            self.awaits() == Some(reply.kind()),
        ensures
            next.buffer() == self.buffer(),
            next.push_constant_size() == self.push_constant_size(),
            match self.step() {
                PipelineStep::Shader(setup) => if setup.replied(reply).state is Ready {
                    &&& next.step() matches PipelineStep::Compute(module, compute)
                    &&& module == setup.replied(reply).made()
                    &&& compute@ == ComputePipelineSetupView::begin(
                        self.buffer().staging_buffer()@,
                        module,
                        images(self.spec_constants()),
                        self.push_constant_size(),
                    )
                } else {
                    next.step() == PipelineStep::Shader(setup.replied(reply))
                        && next.spec_constants() == self.spec_constants()
                },
                PipelineStep::Compute(module, compute) => if compute@.replied(reply).stage
                    is Ready {
                    let made = compute@.replied(reply);
                    &&& next.step() matches PipelineStep::Ready(pipeline)
                    &&& pipeline.buffer == self.buffer()
                    &&& pipeline.shader_module == module
                    &&& pipeline.compute_pipeline.handle == made.handle
                    &&& pipeline.compute_pipeline.cache == made.cache
                    &&& pipeline.compute_pipeline.layout == made.layout
                    &&& pipeline.compute_pipeline.descriptor_pool == made.descriptor_pool
                    &&& pipeline.compute_pipeline.descriptor_set_layout
                        == made.descriptor_set_layout
                    &&& pipeline.compute_pipeline.descriptor_set == made.descriptor_set
                    &&& pipeline.compute_pipeline.staging_buffer@ == made.staging_buffer
                    &&& pipeline.compute_pipeline.shader_module == made.shader_module
                    &&& pipeline.compute_pipeline.push_constant_size == made.push_constant_size
                } else {
                    next.step() matches PipelineStep::Compute(of, after) && of == module
                        && after@ == compute@.replied(reply)
                },
                PipelineStep::Ready(_) => next.step() == self.step(),
            },
    {
        proof {
            use_type_invariant(&self);
        }
        let PipelineSetup { buffer, spec_constants, push_constant_size, step } = self;
        match step {
            PipelineStep::Shader(setup) => {
                let next = setup.reply(reply);
                match next.state {
                    ShaderModuleState::Ready(address) => {
                        let module = ShaderModule {
                            handle: crate::vk::types::VkShaderModule::from_address(address),
                            device: next.device,
                        };
                        let compute = ComputePipeline::new(
                            share(buffer.staging_buffer()),
                            &module,
                            spec_constants,
                            push_constant_size,
                        );
                        PipelineSetup {
                            buffer,
                            spec_constants: Vec::new(),
                            push_constant_size,
                            step: PipelineStep::Compute(module, compute),
                        }
                    },
                    _ => PipelineSetup {
                        buffer,
                        spec_constants,
                        push_constant_size,
                        step: PipelineStep::Shader(next),
                    },
                }
            },
            PipelineStep::Compute(module, compute) => {
                let next = compute.reply(reply);
                if next.is_ready() {
                    let pipeline = Pipeline {
                        buffer: share(&buffer),
                        shader_module: module,
                        compute_pipeline: Arc::new(next.into_made()),
                    };
                    PipelineSetup {
                        buffer,
                        spec_constants,
                        push_constant_size,
                        step: PipelineStep::Ready(pipeline),
                    }
                } else {
                    PipelineSetup {
                        buffer,
                        spec_constants,
                        push_constant_size,
                        step: PipelineStep::Compute(module, next),
                    }
                }
            },
            step => PipelineSetup { buffer, spec_constants, push_constant_size, step },
        }
    }

    /// The calls that give back what a making that did not end well has
    /// acquired, the later acquired first: what the failed making of the
    /// compute pipeline had acquired, and the shader module.
    pub open spec fn unwind_calls(&self) -> Seq<Call> {
        match self.step() {
            PipelineStep::Compute(module, setup) => setup@.unwind_calls()
                + module.release_calls(),
            _ => seq![],
        }
    }

    /// The calls that give back what a making that did not end well has
    /// acquired, the later acquired first.
    pub fn unwind(&self) -> (calls: Vec<Call>)
        ensures
            calls@ == self.unwind_calls(),
    {
        match &self.step {
            PipelineStep::Compute(module, setup) => {
                let mut calls = setup.unwind();
                let mut module = *module;
                let mut more = module.release();
                calls.append(&mut more);
                calls
            },
            _ => Vec::new(),
        }
    }

    /// Why the making failed; meaningful once it has.
    pub open spec fn failure(&self) -> ErrorCode {
        match self.step() {
            PipelineStep::Shader(setup) => setup.state->Failed_0,
            PipelineStep::Compute(_, setup) => ErrorCode::VkResult(setup@.stage->Failed_0),
            PipelineStep::Ready(_) => ErrorCode::ShaderLoadUnaligned,
        }
    }

    /// The pipeline, once the making has ended, or why there is none.
    pub fn finish(self) -> (r: Result<Pipeline, Error>)
        requires
            self.awaits().is_none(),
        ensures
            match self.step() {
                PipelineStep::Ready(pipeline) => r == Ok::<Pipeline, Error>(pipeline),
                _ => r.is_err() && r.unwrap_err().spec_code() == self.failure(),
            },
    {
        proof {
            use_type_invariant(&self);
        }
        match self.step {
            PipelineStep::Ready(pipeline) => Ok(pipeline),
            PipelineStep::Shader(setup) => match setup.state {
                ShaderModuleState::Failed(code) => Err(Error::new(code)),
                _ => Err(Error::new(ErrorCode::ShaderLoadUnaligned)),
            },
            PipelineStep::Compute(_, setup) => match setup.finish() {
                Ok(_) => Err(Error::new(ErrorCode::ShaderLoadUnaligned)),
                Err(error) => Err(error),
            },
        }
    }
}

/// What a one-time dispatch is doing. A step that has failed stays.
#[derive(Debug)]
pub enum DispatchStep {
    /// The dispatch is being made.
    Make(CommandDispatchSetup),
    /// The dispatch is being run.
    Run(CommandDispatch, Submission),
}

/// A dispatch that is made, run once, and given back.
#[derive(Debug)]
pub struct PipelineDispatch {
    step: DispatchStep,
}

impl PipelineDispatch {
    #[verifier::type_invariant]
    spec fn inv(self) -> bool {
        match self.step {
            DispatchStep::Make(setup) => !(setup@.stage is Ready),
            DispatchStep::Run(dispatch, submission) => submission.kind
                == SubmissionKind::Dispatch,
        }
    }

    /// What the dispatch is doing.
    pub closed spec fn step(&self) -> DispatchStep {
        self.step
    }

    /// The shape of the reply that is waited for; none once the dispatch
    /// has ended.
    pub open spec fn awaits(&self) -> Option<ReplyKind> {
        match self.step() {
            DispatchStep::Make(setup) => setup@.awaits(),
            DispatchStep::Run(_, submission) => submission.awaits(),
        }
    }

    /// The call to make now: the pending call of the making, then that of
    /// the run.
    pub fn call(&self) -> (c: Option<Call>)
        ensures
            match self.step() {
                DispatchStep::Make(setup) => setup@.calls(c),
                DispatchStep::Run(_, submission) => c == submission.pending(),
            },
    {
        match &self.step {
            DispatchStep::Make(setup) => setup.call(),
            DispatchStep::Run(_, submission) => submission.call(),
        }
    }

    /// Takes the answer to the pending call. Once the dispatch is made,
    /// its run begins.
    pub fn reply(self, reply: Reply) -> (next: Self)
        requires
            self.awaits() == Some(reply.kind()),
        ensures
            match self.step() {
                DispatchStep::Make(setup) => if setup@.replied(reply).stage is Ready {
                    let made = setup@.replied(reply);
                    &&& next.step() matches DispatchStep::Run(dispatch, submission)
                    &&& *dispatch.compute_pipeline == made.compute_pipeline
                    &&& dispatch.command_buffer == made.command_buffer
                    &&& dispatch.fence == made.fence
                    &&& submission == Submission::begin(
                        SubmissionKind::Dispatch,
                        dispatch.device(),
                        dispatch.command_buffer,
                        dispatch.fence,
                    )
                } else {
                    next.step() matches DispatchStep::Make(after) && after@ == setup@.replied(
                        reply,
                    )
                },
                DispatchStep::Run(dispatch, submission) => next.step() == DispatchStep::Run(
                    dispatch,
                    submission.replied(reply),
                ),
            },
    {
        proof {
            use_type_invariant(&self);
        }
        match self.step {
            DispatchStep::Make(setup) => {
                let next = setup.reply(reply);
                if next.is_ready() {
                    let dispatch = next.into_made();
                    let submission = dispatch.dispatch();
                    PipelineDispatch { step: DispatchStep::Run(dispatch, submission) }
                } else {
                    PipelineDispatch { step: DispatchStep::Make(next) }
                }
            },
            DispatchStep::Run(dispatch, submission) => PipelineDispatch {
                step: DispatchStep::Run(dispatch, submission.reply(reply)),
            },
        }
    }

    /// The calls that give the dispatch back, to make once it has ended,
    /// well or not: those that release the dispatch where it was made, and
    /// else those that give back what its failed making had acquired.
    pub open spec fn unwind_calls(&self) -> Seq<Call> {
        match self.step() {
            DispatchStep::Make(setup) => setup@.unwind_calls(),
            DispatchStep::Run(dispatch, _) => dispatch.release_calls(),
        }
    }

    /// The calls that give the dispatch back.
    pub fn unwind(&self) -> (calls: Vec<Call>)
        ensures
            calls@ == self.unwind_calls(),
    {
        match &self.step {
            DispatchStep::Make(setup) => setup.unwind(),
            DispatchStep::Run(dispatch, _) => dispatch.to_release(),
        }
    }

    /// The outcome, once the dispatch has ended: done, the error of the
    /// status with which the making failed, or `DispatchFailed` with the
    /// status with which the run failed.
    pub fn finish(self) -> (r: Result<(), Error>)
        requires
            self.awaits().is_none(),
        ensures
            match self.step() {
                DispatchStep::Make(setup) => r.is_err() && r.unwrap_err().spec_code()
                    == ErrorCode::VkResult(setup@.stage->Failed_0),
                DispatchStep::Run(_, submission) => match submission.stage {
                    SubmissionStage::Failed(status) => r.is_err() && r.unwrap_err().spec_code()
                        == ErrorCode::DispatchFailed(status),
                    _ => r.is_ok(),
                },
            },
    {
        proof {
            use_type_invariant(&self);
        }
        match self.step {
            DispatchStep::Make(setup) => match setup.finish() {
                Ok(_) => Err(Error::new(ErrorCode::DispatchFailed(VkResult::VK_NOT_READY))),
                Err(error) => Err(error),
            },
            DispatchStep::Run(_, submission) => submission.finish(),
        }
    }
}

/// The choice of a dispatch on a pipeline. `WorkgroupCountType` is `()`
/// until a grid of workgroups is chosen, and `PushConstantsType` is `()`
/// until push constants are chosen; the dispatch can be built once a grid
/// is.
#[derive(Debug)]
pub struct DispatchBuilder<'a, WorkgroupCountType, PushConstantsType> {
    pipeline: &'a Arc<Pipeline>,
    count: WorkgroupCountType,
    push_constants: PushConstantsType,
}

impl<'a> DispatchBuilder<'a, (), ()> {
    /// The builder of a dispatch on `pipeline`, with nothing chosen yet.
    pub fn new(pipeline: &'a Arc<Pipeline>) -> (r: Self)
        ensures
            r.pipeline() == pipeline,
    {
        DispatchBuilder { pipeline, count: (), push_constants: () }
    }
}

impl<'a, WorkgroupCountType, PushConstantsType> DispatchBuilder<
    'a,
    WorkgroupCountType,
    PushConstantsType,
> {
    /// The pipeline that the dispatch runs on.
    pub closed spec fn pipeline(&self) -> &Arc<Pipeline> {
        self.pipeline
    }

    /// The grid that has been chosen.
    pub closed spec fn chosen_count(&self) -> WorkgroupCountType {
        self.count
    }

    /// The push constants that have been chosen.
    pub closed spec fn chosen_constants(&self) -> PushConstantsType {
        self.push_constants
    }
}

impl<'a, PushConstantsType> DispatchBuilder<'a, (), PushConstantsType> {
    /// Chooses a grid of `x` by `y` by `z` workgroups.
    pub fn workgroup_count(self, x: usize, y: usize, z: usize) -> (r: DispatchBuilder<
        'a,
        WorkgroupCount,
        PushConstantsType,
    >)
        requires
            x <= u32::MAX,
            y <= u32::MAX,
            z <= u32::MAX,
        ensures
            r.pipeline() == self.pipeline(),
            r.chosen_count() == (WorkgroupCount { x: x as u32, y: y as u32, z: z as u32 }),
            r.chosen_constants() == self.chosen_constants(),
    {
        DispatchBuilder {
            pipeline: self.pipeline,
            count: WorkgroupCount { x: x as u32, y: y as u32, z: z as u32 },
            push_constants: self.push_constants,
        }
    }
}

impl<'a, WorkgroupCountType> DispatchBuilder<'a, WorkgroupCountType, ()> {
    /// Chooses the push constants `push_constants`.
    pub fn push_constants(self, push_constants: Vec<ConstantEntry>) -> (r: DispatchBuilder<
        'a,
        WorkgroupCountType,
        Vec<ConstantEntry>,
    >)
        ensures
            r.pipeline() == self.pipeline(),
            r.chosen_count() == self.chosen_count(),
            r.chosen_constants() == push_constants,
    {
        DispatchBuilder { pipeline: self.pipeline, count: self.count, push_constants }
    }
}

impl<'a> DispatchBuilder<'a, WorkgroupCount, Vec<ConstantEntry>> {
    /// Begins the making of the dispatch, with the chosen push constants,
    /// which have to lie within the room that the pipeline was made with.
    pub fn build(self) -> (r: CommandDispatchSetup)
        requires
            spec_push_constants_fit(
                self.chosen_constants()@,
                self.pipeline().compute_pipeline.push_constant_size,
            ),
        ensures
            r@ == CommandDispatchSetupView::begin(
                *self.pipeline().compute_pipeline,
                self.chosen_count(),
                images(self.chosen_constants()@),
            ),
    {
        CommandDispatch::new(
            share(&self.pipeline.compute_pipeline),
            self.count,
            self.push_constants,
        )
    }
}

impl<'a> DispatchBuilder<'a, WorkgroupCount, ()> {
    /// Begins the making of the dispatch, without push constants.
    pub fn build(self) -> (r: CommandDispatchSetup)
        ensures
            r@ == CommandDispatchSetupView::begin(
                *self.pipeline().compute_pipeline,
                self.chosen_count(),
                Seq::empty(),
            ),
    {
        proof {
            lemma_no_constants();
        }
        let constants: Vec<ConstantEntry> = Vec::new();
        assert(constants@ =~= Seq::<ConstantEntry>::empty());
        CommandDispatch::new(share(&self.pipeline.compute_pipeline), self.count, constants)
    }
}

/// Gives everything back in the order of dependence: the dispatch, the
/// pipeline with its shader module, the staging buffer, and the context
/// with its command pool, device and instance. Says which calls do so,
/// and forgets every handle.
pub fn teardown(
    dispatch: &mut CommandDispatch,
    pipeline: &mut Pipeline,
    staging_buffer: &mut StagingBuffer,
    context: &mut Context,
) -> (calls: Vec<Call>)
    ensures
        calls@ == old(dispatch).release_calls() + old(pipeline).release_calls() + old(
            staging_buffer,
        )@.release_calls() + old(context).release_calls(),
        final(dispatch).released(),
        final(pipeline).compute_pipeline.released(),
        final(pipeline).shader_module.handle.address == 0,
        final(staging_buffer)@.released(),
        final(context).command_pool.handle.address == 0,
        final(context).device.handle().address == 0,
        final(context).instance.handle.address == 0,
{
    let mut calls = dispatch.release();
    let mut more = pipeline.release();
    calls.append(&mut more);
    let mut more = staging_buffer.release();
    calls.append(&mut more);
    let mut more = context.release();
    calls.append(&mut more);
    calls
}

} // verus!
