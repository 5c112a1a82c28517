//! A staging buffer together with the context that it lives in.

use vstd::prelude::*;
use std::sync::Arc;
use crate::context::Context;
use crate::dispatch::{sizes_of, StagingBuffer, StagingBufferSetup, StagingBufferSetupView};
use crate::driver::{Call, Reply};
use crate::error::Error;
use crate::layout::total;
use crate::shared::share;

verus! {

/// A staging buffer and its context.
#[derive(Debug)]
pub struct Buffer {
    context: Arc<Context>,
    staging_buffer: Arc<StagingBuffer>,
    region_count: usize,
}

impl Buffer {
    #[verifier::type_invariant]
    spec fn inv(self) -> bool {
        self.region_count == self.staging_buffer@.regions.len()
    }

    /// Begins the making of a buffer in `context` whose regions have the
    /// sizes `region_sizes`, in that order.
    pub fn new(context: &Arc<Context>, region_sizes: Vec<usize>) -> (r: BufferSetup)
        requires
            total(sizes_of(region_sizes@)) <= u64::MAX,
        ensures
            r.context == *context,
            r.setup@ == StagingBufferSetupView::begin(context.command_pool, region_sizes@),
    {
        let setup = StagingBuffer::new(context.command_pool(), region_sizes.as_slice());
        BufferSetup { context: share(context), setup }
    }

    pub closed spec fn spec_context(&self) -> &Arc<Context> {
        &self.context
    }

    /// The context of the buffer.
    #[verifier::when_used_as_spec(spec_context)]
    pub fn context(&self) -> (r: &Arc<Context>)
        ensures
            r == self.spec_context(),
    {
        &self.context
    }

    pub closed spec fn spec_staging_buffer(&self) -> &Arc<StagingBuffer> {
        &self.staging_buffer
    }

    /// The staging buffer.
    #[verifier::when_used_as_spec(spec_staging_buffer)]
    pub fn staging_buffer(&self) -> (r: &Arc<StagingBuffer>)
        ensures
            r == self.spec_staging_buffer(),
    {
        &self.staging_buffer
    }

    /// The number of regions of the staging buffer.
    pub fn region_count(&self) -> (r: usize)
        ensures
            r == self.staging_buffer()@.regions.len(),
    {
        proof {
            use_type_invariant(self);
        }
        self.region_count
    }
}

/// The making of a [`Buffer`]: the making of its staging buffer.
#[derive(Debug)]
pub struct BufferSetup {
    pub context: Arc<Context>,
    pub setup: StagingBufferSetup,
}

impl BufferSetup {
    /// The call to make now: that of the making of the staging buffer.
    pub fn call(&self) -> (c: Option<Call>)
        ensures
            self.setup@.calls(c),
    {
        self.setup.call()
    }

    /// Takes the answer to the pending call.
    pub fn reply(self, reply: Reply) -> (next: Self)
        requires
            self.setup@.awaits() == Some(reply.kind()),
        ensures
            next.context == self.context,
            next.setup@ == self.setup@.replied(reply),
    {
        BufferSetup { context: self.context, setup: self.setup.reply(reply) }
    }

    /// The calls that give back what a making that did not end well has
    /// acquired, the later acquired first.
    pub fn unwind(&self) -> (calls: Vec<Call>)
        ensures
            calls@ == self.setup@.unwind_calls(),
    {
        self.setup.unwind()
    }

    /// The buffer, once the making has ended, or why there is none.
    pub fn finish(self) -> (r: Result<Buffer, Error>)
        requires
            self.setup@.awaits().is_none(),
        ensures
            self.setup@.wf(),
            match r {
                Ok(made) => self.setup@.ended_well() && made.staging_buffer()@
                    == self.setup@.made() && made.staging_buffer()@.wf()
                    && made.staging_buffer()@.distinct() && *made.context() == self.context,
                Err(error) => !self.setup@.ended_well() && error.spec_code()
                    == self.setup@.failure(),
            },
    {
        match self.setup.finish() {
            Ok(staging_buffer) => {
                let region_count = staging_buffer.regions().len();
                Ok(
                    Buffer {
                        context: self.context,
                        staging_buffer: Arc::new(staging_buffer),
                        region_count,
                    },
                )
            },
            Err(error) => Err(error),
        }
    }
}

} // verus!
