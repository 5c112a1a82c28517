//! The objects that everything else is built on: the instance, the device
//! with its queue, and the command pool.

use vstd::prelude::*;
use crate::device::{CommandPool, CommandPoolSetup, Device, DeviceBuilder, DeviceState};
use crate::driver::{Call, Reply, ReplyKind, Single};
use crate::error::{Error, ErrorCode};
use crate::instance::{Instance, InstanceSetup};
use crate::vk::enums::VkResult;
use crate::vk::types::{VkCommandPool, VkInstance};

verus! {

broadcast use {
    DeviceBuilder::lemma_begin,
    DeviceBuilder::lemma_replied,
    DeviceBuilder::lemma_made,
};

/// The instance, the device made on its first physical device, and the
/// command pool of that device.
#[derive(Debug, Clone, Copy, PartialEq, Eq)]
pub struct Context {
    pub instance: Instance,
    pub device: Device,
    pub command_pool: CommandPool,
}

impl Context {
    /// Begins the making of a context.
    pub fn new() -> (r: ContextSetup)
        ensures
            r.step() == ContextStep::begin(),
    {
        ContextSetup { step: ContextStep::Instance(Instance::new()) }
    }

    pub open spec fn spec_instance(&self) -> &Instance {
        &self.instance
    }

    /// The instance.
    #[verifier::when_used_as_spec(spec_instance)]
    pub fn instance(&self) -> (r: &Instance)
        ensures
            r == self.spec_instance(),
    {
        &self.instance
    }

    pub open spec fn spec_device(&self) -> &Device {
        &self.device
    }

    /// The device.
    #[verifier::when_used_as_spec(spec_device)]
    pub fn device(&self) -> (r: &Device)
        ensures
            r == self.spec_device(),
    {
        &self.device
    }

    pub open spec fn spec_command_pool(&self) -> &CommandPool {
        &self.command_pool
    }

    /// The command pool.
    #[verifier::when_used_as_spec(spec_command_pool)]
    pub fn command_pool(&self) -> (r: &CommandPool)
        ensures
            r == self.spec_command_pool(),
    {
        &self.command_pool
    }

    /// The calls that give the context back: the command pool, then the
    /// device, then the instance.
    pub open spec fn release_calls(&self) -> Seq<Call> {
        self.command_pool.release_calls() + self.device.release_calls()
            + self.instance.release_calls()
    }

    /// Releases the context: says which calls give it back, and forgets
    /// the handles of the command pool, the device and the instance.
    pub fn release(&mut self) -> (calls: Vec<Call>)
        ensures
            calls@ == old(self).release_calls(),
            final(self).command_pool.handle.address == 0,
            final(self).device.handle().address == 0,
            final(self).instance.handle.address == 0,
            final(self).release_calls() == Seq::<Call>::empty(),
    {
        let mut command_pool = self.command_pool;
        let mut device = self.device;
        let mut instance = self.instance;
        let mut calls = command_pool.release();
        let mut more = device.release();
        calls.append(&mut more);
        let mut more = instance.release();
        calls.append(&mut more);
        *self = Context { instance, device, command_pool };
        assert(self.release_calls() =~= Seq::<Call>::empty());
        calls
    }
}

/// What the making of a context is doing. A step that has failed stays.
#[derive(Debug)]
pub enum ContextStep {
    /// The instance is being made.
    Instance(InstanceSetup),
    /// The device is being made.
    Device(Instance, DeviceBuilder),
    /// The command pool is being made.
    Pool(Instance, CommandPoolSetup),
    /// The context is made.
    Ready(Context),
}

impl ContextStep {
    /// The first step: the making of the instance.
    pub open spec fn begin() -> Self {
        ContextStep::Instance(InstanceSetup { state: Single::Asking })
    }

    /// The shape of the reply that is waited for; none once the making has
    /// ended.
    pub open spec fn awaits(self) -> Option<ReplyKind> {
        match self {
            ContextStep::Instance(setup) => setup.awaits(),
            ContextStep::Device(_, builder) => builder.awaits(),
            ContextStep::Pool(_, setup) => setup.awaits(),
            ContextStep::Ready(_) => None,
        }
    }

    /// The step after the answer `reply` to the pending call: the instance
    /// is made first, then the device for it, then the command pool of
    /// the device. A step that fails ends the making.
    pub open spec fn replied(self, reply: Reply) -> Self {
        match self {
            ContextStep::Instance(setup) => match setup.state.accept(reply) {
                Single::Ready(address) => {
                    let instance = Instance { handle: VkInstance::at(address) };
                    ContextStep::Device(instance, DeviceBuilder::begin(instance))
                },
                state => ContextStep::Instance(InstanceSetup { state }),
            },
            ContextStep::Device(instance, builder) => match builder.after(reply) {
                DeviceState::Ready(device) => ContextStep::Pool(
                    instance,
                    CommandPoolSetup { device, state: Single::Asking },
                ),
                _ => ContextStep::Device(instance, builder.replied(reply)),
            },
            ContextStep::Pool(instance, setup) => match setup.state.accept(reply) {
                Single::Ready(address) => ContextStep::Ready(
                    Context {
                        instance,
                        device: setup.device,
                        command_pool: CommandPool {
                            handle: VkCommandPool::at(address),
                            device: setup.device,
                        },
                    },
                ),
                state => ContextStep::Pool(
                    instance,
                    CommandPoolSetup { device: setup.device, state },
                ),
            },
            step => step,
        }
    }

    /// The invariant of the making: a step that has ended well has been
    /// left.
    pub open spec fn wf(self) -> bool {
        match self {
            ContextStep::Instance(setup) => !(setup.state is Ready),
            ContextStep::Device(_, builder) => !(builder.state() is Ready),
            ContextStep::Pool(_, setup) => !(setup.state is Ready),
            ContextStep::Ready(_) => true,
        }
    }

    /// Why the making failed; meaningful once it has.
    pub open spec fn failure(self) -> ErrorCode {
        match self {
            ContextStep::Instance(setup) => ErrorCode::VkResult(setup.state->Failed_0),
            ContextStep::Device(_, builder) => builder.state()->Failed_0,
            ContextStep::Pool(_, setup) => ErrorCode::VkResult(setup.state->Failed_0),
            ContextStep::Ready(_) => ErrorCode::VkResult(VkResult::VK_SUCCESS),
        }
    }

    /// The calls that give back what a making that did not end well has
    /// acquired, the later acquired first: the device, then the instance.
    pub open spec fn unwind_calls(self) -> Seq<Call> {
        match self {
            ContextStep::Instance(_) => seq![],
            ContextStep::Device(instance, builder) => builder.unwind_calls()
                + instance.release_calls(),
            ContextStep::Pool(instance, setup) => setup.device.release_calls()
                + instance.release_calls(),
            ContextStep::Ready(_) => seq![],
        }
    }
}

/// The making of a [`Context`].
#[derive(Debug)]
pub struct ContextSetup {
    step: ContextStep,
}

impl ContextSetup {
    #[verifier::type_invariant]
    spec fn inv(self) -> bool {
        self.step.wf()
    }

    /// What the making is doing.
    pub closed spec fn step(&self) -> ContextStep {
        self.step
    }

    /// The call to make now: the pending call of the step that is being
    /// taken.
    pub fn call(&self) -> (c: Option<Call>)
        ensures
            match self.step() {
                ContextStep::Instance(setup) => setup.calls(c),
                ContextStep::Device(_, builder) => c == builder.pending(),
                ContextStep::Pool(_, setup) => c == setup.pending(),
                ContextStep::Ready(_) => c.is_none(),
            },
    {
        match &self.step {
            ContextStep::Instance(setup) => setup.call(),
            ContextStep::Device(_, builder) => builder.call(),
            ContextStep::Pool(_, setup) => setup.call(),
            ContextStep::Ready(_) => None,
        }
    }

    /// Takes the answer to the pending call.
    pub fn reply(self, reply: Reply) -> (next: Self)
        requires
            self.step().awaits() == Some(reply.kind()),
        ensures
            next.step() == self.step().replied(reply),
    {
        proof {
            use_type_invariant(&self);
        }
        let step = match self.step {
            ContextStep::Instance(setup) => {
                let next = setup.reply(reply);
                match next.state {
                    Single::Ready(address) => {
                        let instance = Instance { handle: VkInstance::from_address(address) };
                        ContextStep::Device(instance, DeviceBuilder::new(&instance))
                    },
                    _ => ContextStep::Instance(next),
                }
            },
            ContextStep::Device(instance, builder) => {
                let next = builder.reply(reply);
                if next.is_ready() {
                    match next.build() {
                        Ok(device) => ContextStep::Pool(instance, CommandPool::new(&device)),
                        Err(_) => ContextStep::Instance(InstanceSetup { state: Single::Asking }),
                    }
                } else {
                    ContextStep::Device(instance, next)
                }
            },
            ContextStep::Pool(instance, setup) => {
                let device = setup.device;
                let next = setup.reply(reply);
                match next.state {
                    Single::Ready(_) => match next.finish() {
                        Ok(command_pool) => ContextStep::Ready(
                            Context { instance, device, command_pool },
                        ),
                        Err(_) => ContextStep::Instance(InstanceSetup { state: Single::Asking }),
                    },
                    _ => ContextStep::Pool(instance, next),
                }
            },
            step => step,
        };
        ContextSetup { step }
    }

    /// The calls that give back what a making that did not end well has
    /// acquired, the later acquired first.
    pub fn unwind(&self) -> (calls: Vec<Call>)
        ensures
            calls@ == self.step().unwind_calls(),
    {
        match &self.step {
            ContextStep::Device(instance, builder) => {
                let mut calls = builder.unwind();
                let mut instance = *instance;
                let mut more = instance.release();
                calls.append(&mut more);
                calls
            },
            ContextStep::Pool(instance, setup) => {
                let mut device = setup.device;
                let mut calls = device.release();
                let mut instance = *instance;
                let mut more = instance.release();
                calls.append(&mut more);
                calls
            },
            _ => Vec::new(),
        }
    }

    /// The context, once the making has ended, or why there is none.
    pub fn finish(self) -> (r: Result<Context, Error>)
        requires
            self.step().awaits().is_none(),
        ensures
            match self.step() {
                ContextStep::Ready(context) => r == Ok::<Context, Error>(context),
                step => r.is_err() && r.unwrap_err().spec_code() == step.failure(),
            },
    {
        proof {
            use_type_invariant(&self);
        }
        match self.step {
            ContextStep::Ready(context) => Ok(context),
            ContextStep::Instance(setup) => match setup.finish() {
                Ok(_) => Err(Error::new(ErrorCode::SuitablePhysicalDeviceNotFound)),
                Err(error) => Err(error),
            },
            ContextStep::Device(_, builder) => match builder.build() {
                Ok(_) => Err(Error::new(ErrorCode::SuitablePhysicalDeviceNotFound)),
                Err(error) => Err(error),
            },
            ContextStep::Pool(_, setup) => match setup.finish() {
                Ok(_) => Err(Error::new(ErrorCode::SuitablePhysicalDeviceNotFound)),
                Err(error) => Err(error),
            },
        }
    }
}

} // verus!
