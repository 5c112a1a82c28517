//! The logical device and what is made directly from it: its queue, command
//! pools, shader modules, and buffers with their memory.

use vstd::prelude::*;
use crate::driver::{Call, Reply, ReplyKind, Single};
use crate::error::{Error, ErrorCode};
use crate::instance::{Instance, PhysicalDevice, PhysicalDevicesBuilder, QueueFamily};
use crate::vk::enums::{VkResult, VkSharingMode, VkStructureType};
use crate::vk::types::{
    VkBuffer, VkBufferCreateInfo, VkBufferUsageFlags, VkCommandPool, VkCommandPoolCreateInfo,
    VkDevice, VkDeviceCreateInfo, VkDeviceMemory, VkDeviceQueueCreateInfo, VkDeviceSize,
    VkMemoryAllocateInfo, VkMemoryPropertyFlags, VkMemoryRequirements,
    VkPhysicalDeviceMemoryProperties, VkQueue, VkQueueFamilyProperties, VkShaderModule,
    VkShaderModuleCreateInfo, VK_MAX_MEMORY_TYPES,
};

verus! {

/// A logical device with its one queue.
#[derive(Debug, Clone, Copy, PartialEq, Eq)]
pub struct Device {
    handle: VkDevice,
    queue: Queue,
    physical_device: PhysicalDevice,
}

impl Device {
    #[verifier::type_invariant]
    spec fn index_fits(self) -> bool {
        self.queue.family().index() <= u32::MAX
    }

    pub closed spec fn spec_handle(&self) -> VkDevice {
        self.handle
    }

    /// The driver's handle of the device; null once it is released.
    #[verifier::when_used_as_spec(spec_handle)]
    pub fn handle(&self) -> (r: VkDevice)
        ensures
            r == self.spec_handle(),
    {
        self.handle
    }

    pub closed spec fn spec_queue(&self) -> &Queue {
        &self.queue
    }

    /// The queue of the device.
    #[verifier::when_used_as_spec(spec_queue)]
    pub fn queue(&self) -> (r: &Queue)
        ensures
            r == self.spec_queue(),
    {
        &self.queue
    }

    pub closed spec fn spec_physical_device(&self) -> &PhysicalDevice {
        &self.physical_device
    }

    /// The physical device behind the device.
    #[verifier::when_used_as_spec(spec_physical_device)]
    pub fn physical_device(&self) -> (r: &PhysicalDevice)
        ensures
            r == self.spec_physical_device(),
    {
        &self.physical_device
    }

    /// The index of the queue's family, as the driver takes it.
    pub fn queue_family_index(&self) -> (r: u32)
        ensures
            r == self.queue().family().index(),
    {
        proof {
            use_type_invariant(self);
        }
        self.queue.family().index() as u32
    }

    /// The calls that give the device back: one that destroys it, or none
    /// where it has been released before.
    pub open spec fn release_calls(&self) -> Seq<Call> {
        if self.handle().address == 0 {
            seq![]
        } else {
            seq![Call::DestroyDevice { device: self.handle() }]
        }
    }

    /// Releases the device: says which calls give it back, and forgets the
    /// handle.
    pub fn release(&mut self) -> (calls: Vec<Call>)
        ensures
            calls@ == old(self).release_calls(),
            final(self).handle().address == 0,
            final(self).queue() == old(self).queue(),
            final(self).physical_device() == old(self).physical_device(),
    {
        proof {
            use_type_invariant(&*self);
        }
        let mut calls: Vec<Call> = Vec::new();
        if !self.handle.is_null() {
            calls.push(Call::DestroyDevice { device: self.handle });
            self.handle = VkDevice::null();
        }
        assert(calls@ =~= old(self).release_calls());
        calls
    }
}

/// A queue of a device and the family that it was drawn from.
#[derive(Debug, Clone, Copy, PartialEq, Eq)]
pub struct Queue {
    pub handle: VkQueue,
    pub family: QueueFamily,
}

impl Queue {
    /// The queue of `family` that `handle` refers to.
    pub fn new(handle: VkQueue, family: QueueFamily) -> (r: Self)
        ensures
            r.handle() == handle,
            r.family() == family,
    {
        Queue { handle, family }
    }

    pub open spec fn spec_handle(&self) -> VkQueue {
        self.handle
    }

    /// The driver's handle of the queue.
    #[verifier::when_used_as_spec(spec_handle)]
    pub fn handle(&self) -> (r: VkQueue)
        ensures
            r == self.spec_handle(),
    {
        self.handle
    }

    pub open spec fn spec_family(&self) -> &QueueFamily {
        &self.family
    }

    /// The family of the queue.
    #[verifier::when_used_as_spec(spec_family)]
    pub fn family(&self) -> (r: &QueueFamily)
        ensures
            r == self.spec_family(),
    {
        &self.family
    }
}

/// Whether family `at` is the first of `families` that runs compute work.
pub open spec fn first_compute_family(families: Seq<VkQueueFamilyProperties>, at: int) -> bool {
    &&& 0 <= at < families.len()
    &&& families[at].has_compute_queue_bit()
    &&& forall|k: int| 0 <= k < at ==> !(#[trigger] families[k]).has_compute_queue_bit()
}

/// The first family that runs compute work, if there is one.
pub fn select_compute_family(families: &Vec<QueueFamily>) -> (r: Option<QueueFamily>)
    ensures
        match r {
            Some(family) => exists|at: int|
                0 <= at < families@.len() && family == families@[at] && (
                #[trigger] families@[at]).is_compute() && forall|k: int|
                    0 <= k < at ==> !(#[trigger] families@[k]).is_compute(),
            None => forall|k: int|
                0 <= k < families@.len() ==> !(#[trigger] families@[k]).is_compute(),
        },
{
    let mut i: usize = 0;
    while i < families.len()
        invariant
            i <= families@.len(),
            forall|k: int| 0 <= k < i ==> !(#[trigger] families@[k]).is_compute(),
        decreases families@.len() - i,
    {
        if families[i].is_compute() {
            return Some(families[i]);
        }
        i += 1;
    }
    None
}

/// How far the making of a device has come.
#[derive(Debug, Clone, PartialEq, Eq)]
pub enum DeviceState {
    /// The physical devices are being listed.
    Devices,
    /// The queue families of the chosen physical device are being asked.
    Families(PhysicalDevice),
    /// The device is being created with one queue of the chosen family.
    Create(PhysicalDevice, QueueFamily),
    /// The queue of the created device is being fetched.
    Queue(PhysicalDevice, QueueFamily, VkDevice),
    /// The device is made.
    Ready(Device),
    /// No device could be made, for this reason. If a device had been
    /// created by then, it is the one given here and has to be destroyed.
    Failed(ErrorCode, VkDevice),
}

/// The making of a [`Device`] on the first physical device of an instance,
/// with one queue, of priority 0, from the first queue family that runs
/// compute work.
#[derive(Debug)]
pub struct DeviceBuilder {
    instance: Instance,
    state: DeviceState,
}

impl DeviceBuilder {
    #[verifier::type_invariant]
    spec fn wf(self) -> bool {
        match self.state {
            DeviceState::Create(_, family) => family.index() <= u32::MAX,
            DeviceState::Queue(_, family, _) => family.index() <= u32::MAX,
            _ => true,
        }
    }

    /// The making of a device for `instance`, of which nothing has
    /// happened yet.
    pub closed spec fn begin(instance: Instance) -> Self {
        DeviceBuilder { instance, state: DeviceState::Devices }
    }

    /// What a making holds of which nothing has happened yet.
    pub broadcast proof fn lemma_begin(instance: Instance)
        ensures
            (#[trigger] Self::begin(instance)).instance() == instance,
            Self::begin(instance).state() == DeviceState::Devices,
    {
    }

    /// Begins the making of a device for `instance`.
    pub fn new(instance: &Instance) -> (r: Self)
        ensures
            r == Self::begin(*instance),
            r.instance() == *instance,
            r.state() == DeviceState::Devices,
    {
        DeviceBuilder { instance: *instance, state: DeviceState::Devices }
    }

    /// The instance that the device is made for.
    pub closed spec fn instance(&self) -> Instance {
        self.instance
    }

    /// How far the making has come.
    pub closed spec fn state(&self) -> DeviceState {
        self.state
    }

    /// The shape of the reply that is waited for; none once the making has
    /// ended.
    pub open spec fn awaits(&self) -> Option<ReplyKind> {
        match self.state() {
            DeviceState::Devices => Some(ReplyKind::PhysicalDevices),
            DeviceState::Families(_) => Some(ReplyKind::QueueFamilies),
            DeviceState::Create(_, _) => Some(ReplyKind::Handle),
            DeviceState::Queue(_, _, _) => Some(ReplyKind::Handle),
            _ => None,
        }
    }

    /// The call that is pending, if the making has not ended.
    ///
    /// In order: the physical devices of the instance are listed; the queue
    /// families of the first one are asked; a device is created on it with
    /// one queue of the chosen family, of priority 0; queue 0 of that
    /// family is fetched.
    pub open spec fn pending(&self) -> Option<Call> {
        match self.state() {
            DeviceState::Devices => Some(
                Call::EnumeratePhysicalDevices { instance: self.instance().handle() },
            ),
            DeviceState::Families(physical_device) => Some(
                Call::GetPhysicalDeviceQueueFamilyProperties {
                    physical_device: physical_device.handle(),
                },
            ),
            DeviceState::Create(physical_device, family) => Some(
                Call::CreateDevice {
                    physical_device: physical_device.handle(),
                    info: Self::create_info(family.index() as u32),
                },
            ),
            DeviceState::Queue(_, family, device) => Some(
                Call::GetDeviceQueue {
                    device,
                    queue_family_index: family.index() as u32,
                    queue_index: 0,
                },
            ),
            _ => None,
        }
    }

    /// The call to make now.
    pub fn call(&self) -> (c: Option<Call>)
        ensures
            c == self.pending(),
    {
        proof {
            use_type_invariant(self);
        }
        match &self.state {
            DeviceState::Devices => PhysicalDevicesBuilder::new(&self.instance).call(),
            DeviceState::Families(physical_device) => physical_device.queue_families().call(),
            DeviceState::Create(physical_device, family) => {
                let queue_info = VkDeviceQueueCreateInfo::new(family.index() as u32, 1, 0);
                Some(
                    Call::CreateDevice {
                        physical_device: physical_device.handle(),
                        info: VkDeviceCreateInfo::new(queue_info),
                    },
                )
            },
            DeviceState::Queue(_, family, device) => Some(
                Call::GetDeviceQueue {
                    device: *device,
                    queue_family_index: family.index() as u32,
                    queue_index: 0,
                },
            ),
            _ => None,
        }
    }

    /// The request for a device with one queue, of priority 0, of the
    /// family with the given index.
    pub open spec fn create_info(family_index: u32) -> VkDeviceCreateInfo {
        VkDeviceCreateInfo {
            sType: VkStructureType::VK_STRUCTURE_TYPE_DEVICE_CREATE_INFO,
            flags: 0,
            queueCreateInfoCount: 1,
            queueCreateInfo: VkDeviceQueueCreateInfo {
                sType: VkStructureType::VK_STRUCTURE_TYPE_DEVICE_QUEUE_CREATE_INFO,
                flags: 0,
                queueFamilyIndex: family_index,
                queueCount: 1,
                queuePriorityBits: 0,
            },
            enabledLayerCount: 0,
            enabledExtensionCount: 0,
        }
    }

    /// The state that there is no suitable physical device.
    pub open spec fn not_found() -> DeviceState {
        DeviceState::Failed(ErrorCode::SuitablePhysicalDeviceNotFound, VkDevice::at(0))
    }

    /// Where the answer `reply` to the pending call leads.
    ///
    /// A status other than success ends the making with the error of that
    /// status. The physical device is the first one listed, and the family
    /// is the first one of it that runs compute work. An empty list of
    /// physical devices, a list of families none of which runs compute
    /// work, and a first such family whose index the driver cannot take,
    /// end the making with `SuitablePhysicalDeviceNotFound`.
    pub open spec fn after(&self, reply: Reply) -> DeviceState {
        match (self.state(), reply) {
            (DeviceState::Devices, Reply::PhysicalDevices(VkResult::VK_SUCCESS, devices)) => {
                if devices@.len() == 0 {
                    Self::not_found()
                } else {
                    DeviceState::Families(
                        PhysicalDevice { handle: devices@[0], instance: self.instance() },
                    )
                }
            },
            (DeviceState::Devices, Reply::PhysicalDevices(status, _)) => DeviceState::Failed(
                ErrorCode::VkResult(status),
                VkDevice::at(0),
            ),
            (DeviceState::Families(physical_device), Reply::QueueFamilies(properties)) => {
                if exists|at: int| first_compute_family(properties@, at) {
                    let at = choose|at: int| first_compute_family(properties@, at);
                    if at <= u32::MAX {
                        DeviceState::Create(
                            physical_device,
                            QueueFamily { index: at as usize, property: properties@[at] },
                        )
                    } else {
                        Self::not_found()
                    }
                } else {
                    Self::not_found()
                }
            },
            (
                DeviceState::Create(physical_device, family),
                Reply::Handle(VkResult::VK_SUCCESS, address),
            ) => DeviceState::Queue(physical_device, family, VkDevice::at(address)),
            (DeviceState::Create(_, _), Reply::Handle(status, _)) => DeviceState::Failed(
                ErrorCode::VkResult(status),
                VkDevice::at(0),
            ),
            (
                DeviceState::Queue(physical_device, family, device),
                Reply::Handle(VkResult::VK_SUCCESS, address),
            ) => DeviceState::Ready(Self::made(physical_device, family, device, address)),
            (DeviceState::Queue(_, _, device), Reply::Handle(status, _)) => DeviceState::Failed(
                ErrorCode::VkResult(status),
                device,
            ),
            (state, _) => state,
        }
    }

    /// The device `device` on `physical_device`, with the queue of
    /// `family` at `address`.
    pub closed spec fn made(
        physical_device: PhysicalDevice,
        family: QueueFamily,
        device: VkDevice,
        address: usize,
    ) -> Device {
        Device {
            handle: device,
            queue: Queue { handle: VkQueue::at(address), family },
            physical_device,
        }
    }

    /// What the made device holds.
    pub broadcast proof fn lemma_made(
        physical_device: PhysicalDevice,
        family: QueueFamily,
        device: VkDevice,
        address: usize,
    )
        ensures
            (#[trigger] Self::made(physical_device, family, device, address)).handle() == device,
            Self::made(physical_device, family, device, address).queue() == (Queue {
                handle: VkQueue::at(address),
                family,
            }),
            Self::made(physical_device, family, device, address).physical_device()
                == physical_device,
    {
    }

    /// The making after the answer `reply` to the pending call.
    pub closed spec fn replied(self, reply: Reply) -> Self {
        DeviceBuilder { instance: self.instance, state: self.after(reply) }
    }

    /// What the making holds after an answer.
    pub broadcast proof fn lemma_replied(self, reply: Reply)
        ensures
            (#[trigger] self.replied(reply)).instance() == self.instance(),
            self.replied(reply).state() == self.after(reply),
    {
    }

    /// Takes the answer to the pending call.
    pub fn reply(self, reply: Reply) -> (next: Self)
        requires
            self.awaits() == Some(reply.kind()),
        ensures
            next == self.replied(reply),
            next.instance() == self.instance(),
            next.state() == self.after(reply),
    {
        proof {
            use_type_invariant(&self);
        }
        let instance = self.instance;
        let status = reply.status();
        let state = match self.state {
            DeviceState::Devices => {
                match PhysicalDevicesBuilder::new(&instance).reply(reply).build() {
                    Ok(devices) => {
                        if devices.len() == 0 {
                            DeviceState::Failed(
                                ErrorCode::SuitablePhysicalDeviceNotFound,
                                VkDevice::null(),
                            )
                        } else {
                            DeviceState::Families(devices[0])
                        }
                    },
                    Err(_) => DeviceState::Failed(ErrorCode::VkResult(status), VkDevice::null()),
                }
            },
            DeviceState::Families(physical_device) => {
                let ghost properties = reply->QueueFamilies_0@;
                match physical_device.queue_families().reply(reply).finish() {
                    Ok(families) => {
                        match select_compute_family(&families) {
                            Some(family) => {
                                proof {
                                    let at = choose|at: int|
                                        0 <= at < families@.len() && family == families@[at] && (
                                        #[trigger] families@[at]).is_compute() && forall|k: int|
                                            0 <= k < at ==> !(#[trigger] families@[k]).is_compute();
                                    assert(first_compute_family(properties, at)) by {
                                        assert(families@[at].property() == properties[at]);
                                        assert forall|k: int| 0 <= k < at implies !(
                                        #[trigger] properties[k]).has_compute_queue_bit() by {
                                            assert(families@[k].property() == properties[k]);
                                        }
                                    }
                                    let chosen = choose|other: int|
                                        first_compute_family(properties, other);
                                    assert(first_compute_family(properties, chosen));
                                    if chosen < at {
                                        assert(families@[chosen].property() == properties[chosen]);
                                        assert(!families@[chosen].is_compute());
                                    }
                                    if at < chosen {
                                        assert(!properties[at].has_compute_queue_bit());
                                    }
                                    assert(chosen == at);
                                    assert(family.index() == at);
                                    assert(family.property() == properties[at]);
                                }
                                if family.index() <= u32::MAX as usize {
                                    DeviceState::Create(physical_device, family)
                                } else {
                                    DeviceState::Failed(
                                        ErrorCode::SuitablePhysicalDeviceNotFound,
                                        VkDevice::null(),
                                    )
                                }
                            },
                            None => {
                                proof {
                                    assert forall|at: int|
                                        first_compute_family(properties, at) implies false by {
                                        assert(families@[at].property() == properties[at]);
                                        assert(!families@[at].is_compute());
                                    }
                                }
                                DeviceState::Failed(
                                    ErrorCode::SuitablePhysicalDeviceNotFound,
                                    VkDevice::null(),
                                )
                            },
                        }
                    },
                    Err(_) => DeviceState::Families(physical_device),
                }
            },
            DeviceState::Create(physical_device, family) => {
                match Single::Asking.accept(reply) {
                    Single::Ready(address) => DeviceState::Queue(
                        physical_device,
                        family,
                        VkDevice::from_address(address),
                    ),
                    Single::Failed(status) => DeviceState::Failed(
                        ErrorCode::VkResult(status),
                        VkDevice::null(),
                    ),
                    Single::Asking => DeviceState::Create(physical_device, family),
                }
            },
            DeviceState::Queue(physical_device, family, device) => {
                match Single::Asking.accept(reply) {
                    Single::Ready(address) => DeviceState::Ready(
                        Device {
                            handle: device,
                            queue: Queue::new(VkQueue::from_address(address), family),
                            physical_device,
                        },
                    ),
                    Single::Failed(status) => DeviceState::Failed(
                        ErrorCode::VkResult(status),
                        device,
                    ),
                    Single::Asking => DeviceState::Queue(physical_device, family, device),
                }
            },
            other => other,
        };
        DeviceBuilder { instance, state }
    }

    /// Whether the device is made.
    pub fn is_ready(&self) -> (r: bool)
        ensures
            r == (self.state() is Ready),
    {
        match &self.state {
            DeviceState::Ready(_) => true,
            _ => false,
        }
    }

    /// The calls that give back what a failed making had acquired: the
    /// destruction of the device, where one had been created.
    pub open spec fn unwind_calls(&self) -> Seq<Call> {
        match self.state() {
            DeviceState::Failed(_, device) => if device.address == 0 {
                seq![]
            } else {
                seq![Call::DestroyDevice { device }]
            },
            _ => seq![],
        }
    }

    /// The calls that give back what a failed making had acquired.
    pub fn unwind(&self) -> (calls: Vec<Call>)
        ensures
            calls@ == self.unwind_calls(),
    {
        let mut calls: Vec<Call> = Vec::new();
        match &self.state {
            DeviceState::Failed(_, device) => {
                if !device.is_null() {
                    calls.push(Call::DestroyDevice { device: *device });
                }
            },
            _ => {},
        }
        calls
    }

    /// The device, once the making has ended, or why there is none.
    pub fn build(self) -> (r: Result<Device, Error>)
        requires
            self.awaits().is_none(),
        ensures
            match self.state() {
                DeviceState::Ready(device) => r == Ok::<Device, Error>(device),
                DeviceState::Failed(code, _) => r.is_err() && r.unwrap_err().spec_code() == code,
                _ => false,
            },
    {
        match self.state {
            DeviceState::Ready(device) => Ok(device),
            DeviceState::Failed(code, _) => Err(Error::new(code)),
            _ => Err(Error::new(ErrorCode::SuitablePhysicalDeviceNotFound)),
        }
    }
}

/// Whether memory type `at` can back a buffer that allows the types in
/// `memory_type_bits` and has every property in `requested`.
pub open spec fn memory_type_fits(
    memory_type_bits: u32,
    properties: &VkPhysicalDeviceMemoryProperties,
    requested: VkMemoryPropertyFlags,
    at: int,
) -> bool {
    &&& 0 <= at < VK_MAX_MEMORY_TYPES
    &&& ((memory_type_bits >> (at as u32)) & 1) == 1
    &&& (properties.memoryTypes@[at].propertyFlags & requested) == requested
}

/// The lowest memory type that the buffer allows and that has every
/// requested property, if there is one.
pub fn find_memory_type(
    memory_type_bits: u32,
    properties: &VkPhysicalDeviceMemoryProperties,
    requested: VkMemoryPropertyFlags,
) -> (r: Option<u32>)
    ensures
        match r {
            Some(index) => memory_type_fits(memory_type_bits, properties, requested, index as int)
                && forall|k: int|
                0 <= k < index ==> !memory_type_fits(memory_type_bits, properties, requested, k),
            None => forall|k: int|
                0 <= k < VK_MAX_MEMORY_TYPES ==> !memory_type_fits(
                    memory_type_bits,
                    properties,
                    requested,
                    k,
                ),
        },
{
    let mut i: u32 = 0;
    while i < 32
        invariant
            i <= 32,
            VK_MAX_MEMORY_TYPES == 32,
            forall|k: int|
                0 <= k < i ==> !memory_type_fits(memory_type_bits, properties, requested, k),
        decreases 32 - i,
    {
        let allowed = ((memory_type_bits >> i) & 1) == 1;
        let flags = properties.memoryTypes[i as usize].propertyFlags;
        if allowed && (flags & requested) == requested {
            return Some(i);
        }
        i += 1;
    }
    None
}

/// A buffer and the device memory bound to it.
#[derive(Debug, Clone, Copy, PartialEq, Eq)]
pub struct BufferMemory {
    pub buffer: VkBuffer,
    pub memory: VkDeviceMemory,
    pub device: Device,
    pub whole_size: VkDeviceSize,
}

impl BufferMemory {
    /// Begins the making of a buffer of `size` bytes for the uses in
    /// `usage`, backed by memory with the properties in
    /// `memory_property_flags`.
    pub fn new(
        device: &Device,
        usage: VkBufferUsageFlags,
        memory_property_flags: VkMemoryPropertyFlags,
        size: VkDeviceSize,
    ) -> (r: BufferMemorySetup)
        ensures
            r == BufferMemorySetup::begin(*device, usage, memory_property_flags, size),
    {
        BufferMemorySetup {
            device: *device,
            usage,
            memory_property_flags,
            size,
            state: BufferMemoryState::CreateBuffer,
        }
    }

    pub open spec fn spec_buffer(&self) -> VkBuffer {
        self.buffer
    }

    /// The driver's handle of the buffer; null once it is released.
    #[verifier::when_used_as_spec(spec_buffer)]
    pub fn buffer(&self) -> (r: VkBuffer)
        ensures
            r == self.spec_buffer(),
    {
        self.buffer
    }

    pub open spec fn spec_memory(&self) -> VkDeviceMemory {
        self.memory
    }

    /// The driver's handle of the memory; null once it is released.
    #[verifier::when_used_as_spec(spec_memory)]
    pub fn memory(&self) -> (r: VkDeviceMemory)
        ensures
            r == self.spec_memory(),
    {
        self.memory
    }

    pub open spec fn spec_device(&self) -> &Device {
        &self.device
    }

    /// The device that the buffer lives on.
    #[verifier::when_used_as_spec(spec_device)]
    pub fn device(&self) -> (r: &Device)
        ensures
            r == self.spec_device(),
    {
        &self.device
    }

    pub open spec fn spec_whole_size(&self) -> VkDeviceSize {
        self.whole_size
    }

    /// The size of the buffer in bytes.
    #[verifier::when_used_as_spec(spec_whole_size)]
    pub fn whole_size(&self) -> (r: VkDeviceSize)
        ensures
            r == self.spec_whole_size(),
    {
        self.whole_size
    }

    /// The calls that give the buffer and its memory back: the buffer is
    /// destroyed, then the memory is freed. None where they have been
    /// released before.
    pub open spec fn release_calls(&self) -> Seq<Call> {
        if self.buffer().address == 0 && self.memory().address == 0 {
            seq![]
        } else {
            seq![
                Call::DestroyBuffer { device: self.device().handle(), buffer: self.buffer() },
                Call::FreeMemory { device: self.device().handle(), memory: self.memory() },
            ]
        }
    }

    /// The calls that give the memory and the buffer back in the reverse
    /// order of their acquisition: the memory is freed, then the buffer is
    /// destroyed.
    pub open spec fn unwind_calls(&self) -> Seq<Call> {
        seq![
            Call::FreeMemory { device: self.device().handle(), memory: self.memory() },
            Call::DestroyBuffer { device: self.device().handle(), buffer: self.buffer() },
        ]
    }

    /// The calls that give the memory and the buffer back in the reverse
    /// order of their acquisition.
    pub fn unwind(&self) -> (calls: Vec<Call>)
        ensures
            calls@ == self.unwind_calls(),
    {
        let mut calls: Vec<Call> = Vec::new();
        calls.push(Call::FreeMemory { device: self.device.handle(), memory: self.memory });
        calls.push(Call::DestroyBuffer { device: self.device.handle(), buffer: self.buffer });
        assert(calls@ =~= self.unwind_calls());
        calls
    }

    /// Releases the buffer and its memory: says which calls give them
    /// back, and forgets both handles.
    pub fn release(&mut self) -> (calls: Vec<Call>)
        ensures
            calls@ == old(self).release_calls(),
            final(self).buffer().address == 0,
            final(self).memory().address == 0,
            final(self).device() == old(self).device(),
            final(self).whole_size() == old(self).whole_size(),
    {
        let mut calls: Vec<Call> = Vec::new();
        if !(self.buffer.is_null() && self.memory.is_null()) {
            calls.push(Call::DestroyBuffer { device: self.device.handle(), buffer: self.buffer });
            calls.push(Call::FreeMemory { device: self.device.handle(), memory: self.memory });
            self.buffer = VkBuffer::null();
            self.memory = VkDeviceMemory::null();
        }
        assert(calls@ =~= old(self).release_calls());
        calls
    }
}

/// How far the making of a buffer with its memory has come.
#[derive(Debug, Clone, Copy, PartialEq, Eq)]
pub enum BufferMemoryState {
    /// The buffer is being created.
    CreateBuffer,
    /// The memory types of the physical device are being asked.
    Properties(VkBuffer),
    /// The memory that the buffer needs is being asked.
    Requirements(VkBuffer, VkPhysicalDeviceMemoryProperties),
    /// Memory of the chosen type is being allocated.
    Allocate(VkBuffer, VkMemoryRequirements, u32),
    /// The memory is being bound to the buffer.
    Bind(VkBuffer, VkDeviceMemory),
    /// Buffer and memory are made and bound.
    Ready(VkBuffer, VkDeviceMemory),
    /// The making failed for this reason. The buffer and the memory given
    /// here had been acquired by then (null: not acquired).
    Failed(BufferMemoryFailure, VkBuffer, VkDeviceMemory),
}

/// Why the making of a buffer with its memory failed.
#[derive(Debug, Clone, Copy, PartialEq, Eq, Structural)]
pub enum BufferMemoryFailure {
    /// The driver returned this status, which is not success.
    Status(VkResult),
    /// No memory type fits.
    NoMemoryType,
}

impl BufferMemoryState {
    /// The buffer, as far as it has been created: null before.
    pub fn buffer(&self) -> (r: VkBuffer)
        ensures
            r == match *self {
                BufferMemoryState::CreateBuffer => VkBuffer::at(0),
                BufferMemoryState::Properties(buffer) => buffer,
                BufferMemoryState::Requirements(buffer, _) => buffer,
                BufferMemoryState::Allocate(buffer, _, _) => buffer,
                BufferMemoryState::Bind(buffer, _) => buffer,
                BufferMemoryState::Ready(buffer, _) => buffer,
                BufferMemoryState::Failed(_, buffer, _) => buffer,
            },
    {
        match *self {
            BufferMemoryState::CreateBuffer => VkBuffer::null(),
            BufferMemoryState::Properties(buffer) => buffer,
            BufferMemoryState::Requirements(buffer, _) => buffer,
            BufferMemoryState::Allocate(buffer, _, _) => buffer,
            BufferMemoryState::Bind(buffer, _) => buffer,
            BufferMemoryState::Ready(buffer, _) => buffer,
            BufferMemoryState::Failed(_, buffer, _) => buffer,
        }
    }

    /// The memory, as far as it has been allocated: null before.
    pub fn memory(&self) -> (r: VkDeviceMemory)
        ensures
            r == match *self {
                BufferMemoryState::Bind(_, memory) => memory,
                BufferMemoryState::Ready(_, memory) => memory,
                BufferMemoryState::Failed(_, _, memory) => memory,
                _ => VkDeviceMemory::at(0),
            },
    {
        match *self {
            BufferMemoryState::Bind(_, memory) => memory,
            BufferMemoryState::Ready(_, memory) => memory,
            BufferMemoryState::Failed(_, _, memory) => memory,
            _ => VkDeviceMemory::null(),
        }
    }
}

impl BufferMemoryFailure {
    /// The error code that tells of this failure.
    pub open spec fn code(self) -> ErrorCode {
        match self {
            BufferMemoryFailure::Status(status) => ErrorCode::VkResult(status),
            BufferMemoryFailure::NoMemoryType => ErrorCode::SuitableBufferMemoryTypeNotFound,
        }
    }
}

/// The making of a [`BufferMemory`].
#[derive(Debug, Clone, Copy, PartialEq, Eq)]
pub struct BufferMemorySetup {
    pub device: Device,
    pub usage: VkBufferUsageFlags,
    pub memory_property_flags: VkMemoryPropertyFlags,
    pub size: VkDeviceSize,
    pub state: BufferMemoryState,
}

impl BufferMemorySetup {
    /// The making of a buffer with its memory, of which nothing has
    /// happened yet.
    pub open spec fn begin(
        device: Device,
        usage: VkBufferUsageFlags,
        memory_property_flags: VkMemoryPropertyFlags,
        size: VkDeviceSize,
    ) -> Self {
        BufferMemorySetup {
            device,
            usage,
            memory_property_flags,
            size,
            state: BufferMemoryState::CreateBuffer,
        }
    }

    /// The making after the answer `reply` to the pending call.
    pub open spec fn replied(self, reply: Reply) -> Self {
        BufferMemorySetup { state: self.after(reply), ..self }
    }

    /// The buffer with its memory that has been made; meaningful once the
    /// making has ended well.
    pub open spec fn made(self) -> BufferMemory {
        BufferMemory {
            buffer: self.state->Ready_0,
            memory: self.state->Ready_1,
            device: self.device,
            whole_size: self.size,
        }
    }

    /// The device that the buffer is made on.
    pub open spec fn device(&self) -> Device {
        self.device
    }

    /// The uses that the buffer is made for.
    pub open spec fn usage(&self) -> VkBufferUsageFlags {
        self.usage
    }

    /// The properties asked of the memory.
    pub open spec fn memory_property_flags(&self) -> VkMemoryPropertyFlags {
        self.memory_property_flags
    }

    /// The size of the buffer in bytes.
    pub open spec fn size(&self) -> VkDeviceSize {
        self.size
    }

    /// How far the making has come.
    pub open spec fn state(&self) -> BufferMemoryState {
        self.state
    }

    /// The call that is pending, if the making has not ended.
    ///
    /// In order: a buffer of exactly the asked size is created, for
    /// exclusive use by one queue family; the memory types of the physical
    /// device and the memory that the buffer needs are asked; as many bytes
    /// as the buffer needs are allocated from the chosen memory type; the
    /// memory is bound to the buffer at offset 0.
    pub open spec fn pending(&self) -> Option<Call> {
        let device = self.device().handle();
        match self.state() {
            BufferMemoryState::CreateBuffer => Some(
                Call::CreateBuffer {
                    device,
                    info: VkBufferCreateInfo {
                        sType: VkStructureType::VK_STRUCTURE_TYPE_BUFFER_CREATE_INFO,
                        flags: 0,
                        size: self.size(),
                        usage: self.usage(),
                        sharingMode: VkSharingMode::VK_SHARING_MODE_EXCLUSIVE,
                        queueFamilyIndexCount: 0,
                    },
                },
            ),
            BufferMemoryState::Properties(_) => Some(
                Call::GetPhysicalDeviceMemoryProperties {
                    physical_device: self.device().physical_device().handle(),
                },
            ),
            BufferMemoryState::Requirements(buffer, _) => Some(
                Call::GetBufferMemoryRequirements { device, buffer },
            ),
            BufferMemoryState::Allocate(_, requirements, index) => Some(
                Call::AllocateMemory {
                    device,
                    info: VkMemoryAllocateInfo {
                        sType: VkStructureType::VK_STRUCTURE_TYPE_MEMORY_ALLOCATE_INFO,
                        allocationSize: requirements.size,
                        memoryTypeIndex: index,
                    },
                },
            ),
            BufferMemoryState::Bind(buffer, memory) => Some(
                Call::BindBufferMemory { device, buffer, memory, memory_offset: 0 },
            ),
            _ => None,
        }
    }

    /// The shape of the reply that is waited for; none once the making has
    /// ended.
    pub open spec fn awaits(&self) -> Option<ReplyKind> {
        match self.pending() {
            Some(call) => Some(call.reply_kind()),
            None => None,
        }
    }

    /// The call to make now.
    pub fn call(&self) -> (c: Option<Call>)
        ensures
            c == self.pending(),
    {
        let device = self.device.handle();
        match self.state {
            BufferMemoryState::CreateBuffer => Some(
                Call::CreateBuffer {
                    device,
                    info: VkBufferCreateInfo::new(
                        self.size,
                        self.usage,
                        VkSharingMode::VK_SHARING_MODE_EXCLUSIVE,
                    ),
                },
            ),
            BufferMemoryState::Properties(_) => Some(
                Call::GetPhysicalDeviceMemoryProperties {
                    physical_device: self.device.physical_device().handle(),
                },
            ),
            BufferMemoryState::Requirements(buffer, _) => Some(
                Call::GetBufferMemoryRequirements { device, buffer },
            ),
            BufferMemoryState::Allocate(_, requirements, index) => Some(
                Call::AllocateMemory {
                    device,
                    info: VkMemoryAllocateInfo::new(requirements.size, index),
                },
            ),
            BufferMemoryState::Bind(buffer, memory) => Some(
                Call::BindBufferMemory { device, buffer, memory, memory_offset: 0 },
            ),
            _ => None,
        }
    }

    /// Where the answer `reply` to the pending call leads.
    ///
    /// A status other than success ends the making with that status. The
    /// memory type is the lowest one that the buffer allows and that has
    /// every requested property; where there is none, the making ends for
    /// want of a memory type. What had been acquired when the making failed
    /// is kept for release.
    pub open spec fn after(&self, reply: Reply) -> BufferMemoryState {
        match (self.state(), reply) {
            (BufferMemoryState::CreateBuffer, Reply::Handle(VkResult::VK_SUCCESS, address)) => {
                BufferMemoryState::Properties(VkBuffer::from_address(address))
            },
            (BufferMemoryState::CreateBuffer, Reply::Handle(status, _)) => {
                BufferMemoryState::Failed(
                    BufferMemoryFailure::Status(status),
                    VkBuffer::null(),
                    VkDeviceMemory::null(),
                )
            },
            (BufferMemoryState::Properties(buffer), Reply::MemoryProperties(properties)) => {
                BufferMemoryState::Requirements(buffer, properties)
            },
            (
                BufferMemoryState::Requirements(buffer, properties),
                Reply::MemoryRequirements(requirements),
            ) => {
                if exists|at: int|
                    memory_type_fits(
                        requirements.memoryTypeBits,
                        &properties,
                        self.memory_property_flags(),
                        at,
                    ) {
                    BufferMemoryState::Allocate(
                        buffer,
                        requirements,
                        lowest_memory_type(
                            requirements.memoryTypeBits,
                            &properties,
                            self.memory_property_flags(),
                        ),
                    )
                } else {
                    BufferMemoryState::Failed(
                        BufferMemoryFailure::NoMemoryType,
                        buffer,
                        VkDeviceMemory::null(),
                    )
                }
            },
            (
                BufferMemoryState::Allocate(buffer, _, _),
                Reply::Handle(VkResult::VK_SUCCESS, address),
            ) => BufferMemoryState::Bind(buffer, VkDeviceMemory::from_address(address)),
            (BufferMemoryState::Allocate(buffer, _, _), Reply::Handle(status, _)) => {
                BufferMemoryState::Failed(
                    BufferMemoryFailure::Status(status),
                    buffer,
                    VkDeviceMemory::null(),
                )
            },
            (BufferMemoryState::Bind(buffer, memory), Reply::Status(VkResult::VK_SUCCESS)) => {
                BufferMemoryState::Ready(buffer, memory)
            },
            (BufferMemoryState::Bind(buffer, memory), Reply::Status(status)) => {
                BufferMemoryState::Failed(BufferMemoryFailure::Status(status), buffer, memory)
            },
            (state, _) => state,
        }
    }

    /// Takes the answer to the pending call.
    pub fn reply(self, reply: Reply) -> (next: Self)
        requires
            self.awaits() == Some(reply.kind()),
        ensures
            next == self.replied(reply),
    {
        let state = match (self.state, reply) {
            (BufferMemoryState::CreateBuffer, Reply::Handle(VkResult::VK_SUCCESS, address)) => {
                BufferMemoryState::Properties(VkBuffer::from_address(address))
            },
            (BufferMemoryState::CreateBuffer, Reply::Handle(status, _)) => {
                BufferMemoryState::Failed(
                    BufferMemoryFailure::Status(status),
                    VkBuffer::null(),
                    VkDeviceMemory::null(),
                )
            },
            (BufferMemoryState::Properties(buffer), Reply::MemoryProperties(properties)) => {
                BufferMemoryState::Requirements(buffer, properties)
            },
            (
                BufferMemoryState::Requirements(buffer, properties),
                Reply::MemoryRequirements(requirements),
            ) => {
                match find_memory_type(
                    requirements.memoryTypeBits,
                    &properties,
                    self.memory_property_flags,
                ) {
                    Some(index) => {
                        proof {
                            lemma_lowest_memory_type(
                                requirements.memoryTypeBits,
                                &properties,
                                self.memory_property_flags,
                                index as int,
                            );
                        }
                        BufferMemoryState::Allocate(buffer, requirements, index)
                    },
                    None => BufferMemoryState::Failed(
                        BufferMemoryFailure::NoMemoryType,
                        buffer,
                        VkDeviceMemory::null(),
                    ),
                }
            },
            (
                BufferMemoryState::Allocate(buffer, _, _),
                Reply::Handle(VkResult::VK_SUCCESS, address),
            ) => BufferMemoryState::Bind(buffer, VkDeviceMemory::from_address(address)),
            (BufferMemoryState::Allocate(buffer, _, _), Reply::Handle(status, _)) => {
                BufferMemoryState::Failed(
                    BufferMemoryFailure::Status(status),
                    buffer,
                    VkDeviceMemory::null(),
                )
            },
            (BufferMemoryState::Bind(buffer, memory), Reply::Status(VkResult::VK_SUCCESS)) => {
                BufferMemoryState::Ready(buffer, memory)
            },
            (BufferMemoryState::Bind(buffer, memory), Reply::Status(status)) => {
                BufferMemoryState::Failed(BufferMemoryFailure::Status(status), buffer, memory)
            },
            (state, _) => state,
        };
        BufferMemorySetup {
            device: self.device,
            usage: self.usage,
            memory_property_flags: self.memory_property_flags,
            size: self.size,
            state,
        }
    }

    /// The calls that give back what a failed making had acquired, the
    /// later acquired first: the memory is freed, then the buffer is
    /// destroyed. None unless the making has failed.
    pub open spec fn unwind_calls(&self) -> Seq<Call> {
        match self.state() {
            BufferMemoryState::Failed(_, buffer, memory) => {
                let device = self.device().handle();
                let first = if memory.address == 0 {
                    seq![]
                } else {
                    seq![Call::FreeMemory { device, memory }]
                };
                let second = if buffer.address == 0 {
                    seq![]
                } else {
                    seq![Call::DestroyBuffer { device, buffer }]
                };
                first + second
            },
            _ => seq![],
        }
    }

    /// The calls that give back what a failed making had acquired.
    pub fn unwind(&self) -> (calls: Vec<Call>)
        ensures
            calls@ == self.unwind_calls(),
    {
        let mut calls: Vec<Call> = Vec::new();
        match self.state {
            BufferMemoryState::Failed(_, buffer, memory) => {
                let device = self.device.handle();
                if !memory.is_null() {
                    calls.push(Call::FreeMemory { device, memory });
                }
                if !buffer.is_null() {
                    calls.push(Call::DestroyBuffer { device, buffer });
                }
            },
            _ => {},
        }
        assert(calls@ =~= self.unwind_calls());
        calls
    }

    /// The buffer with its memory, once the making has ended, or why there
    /// is none.
    pub fn finish(self) -> (r: Result<BufferMemory, Error>)
        requires
            self.awaits().is_none(),
        ensures
            match self.state() {
                BufferMemoryState::Ready(_, _) => r == Ok::<BufferMemory, Error>(self.made()),
                BufferMemoryState::Failed(failure, _, _) => r.is_err()
                    && r.unwrap_err().spec_code() == failure.code(),
                _ => false,
            },
    {
        match self.state {
            BufferMemoryState::Ready(buffer, memory) => Ok(
                BufferMemory { buffer, memory, device: self.device, whole_size: self.size },
            ),
            BufferMemoryState::Failed(BufferMemoryFailure::Status(status), _, _) => Err(
                Error::new(ErrorCode::VkResult(status)),
            ),
            _ => Err(Error::new(ErrorCode::SuitableBufferMemoryTypeNotFound)),
        }
    }
}

/// The lowest memory type that fits; meaningful where one fits.
pub open spec fn lowest_memory_type(
    memory_type_bits: u32,
    properties: &VkPhysicalDeviceMemoryProperties,
    requested: VkMemoryPropertyFlags,
) -> u32 {
    choose|index: u32|
        memory_type_fits(memory_type_bits, properties, requested, index as int) && forall|k: int|
            0 <= k < index ==> !memory_type_fits(memory_type_bits, properties, requested, k)
}

/// A memory type that fits and has no fitting type below it is the lowest
/// that fits.
pub proof fn lemma_lowest_memory_type(
    memory_type_bits: u32,
    properties: &VkPhysicalDeviceMemoryProperties,
    requested: VkMemoryPropertyFlags,
    index: int,
)
    requires
        memory_type_fits(memory_type_bits, properties, requested, index),
        forall|k: int|
            0 <= k < index ==> !memory_type_fits(memory_type_bits, properties, requested, k),
    ensures
        lowest_memory_type(memory_type_bits, properties, requested) == index,
{
    let witness = index as u32;
    assert(memory_type_fits(memory_type_bits, properties, requested, witness as int));
    let chosen = lowest_memory_type(memory_type_bits, properties, requested);
    assert(memory_type_fits(memory_type_bits, properties, requested, chosen as int) && forall|
        k: int,
    |
        0 <= k < chosen ==> !memory_type_fits(memory_type_bits, properties, requested, k));
    if chosen < index {
        assert(!memory_type_fits(memory_type_bits, properties, requested, chosen as int));
    }
    if index < chosen {
        assert(!memory_type_fits(memory_type_bits, properties, requested, index));
    }
}

/// The pool from which the command buffers of a device are allocated.
#[derive(Debug, Clone, Copy, PartialEq, Eq)]
pub struct CommandPool {
    pub handle: VkCommandPool,
    pub device: Device,
}

impl CommandPool {
    /// Begins the making of a command pool on the family of the device's
    /// queue.
    pub fn new(device: &Device) -> (r: CommandPoolSetup)
        ensures
            r.device() == *device,
            r.state() == Single::Asking,
    {
        CommandPoolSetup { device: *device, state: Single::Asking }
    }

    pub open spec fn spec_handle(&self) -> VkCommandPool {
        self.handle
    }

    /// The driver's handle of the pool; null once it is released.
    #[verifier::when_used_as_spec(spec_handle)]
    pub fn handle(&self) -> (r: VkCommandPool)
        ensures
            r == self.spec_handle(),
    {
        self.handle
    }

    pub open spec fn spec_device(&self) -> &Device {
        &self.device
    }

    /// The device of the pool.
    #[verifier::when_used_as_spec(spec_device)]
    pub fn device(&self) -> (r: &Device)
        ensures
            r == self.spec_device(),
    {
        &self.device
    }

    /// The calls that give the pool back: one that destroys it, or none
    /// where it has been released before.
    pub open spec fn release_calls(&self) -> Seq<Call> {
        if self.handle().address == 0 {
            seq![]
        } else {
            seq![
                Call::DestroyCommandPool {
                    device: self.device().handle(),
                    command_pool: self.handle(),
                },
            ]
        }
    }

    /// Releases the pool: says which calls give it back, and forgets the
    /// handle.
    pub fn release(&mut self) -> (calls: Vec<Call>)
        ensures
            calls@ == old(self).release_calls(),
            final(self).handle().address == 0,
            final(self).device() == old(self).device(),
    {
        let mut calls: Vec<Call> = Vec::new();
        if !self.handle.is_null() {
            calls.push(
                Call::DestroyCommandPool {
                    device: self.device.handle(),
                    command_pool: self.handle,
                },
            );
            self.handle = VkCommandPool::null();
        }
        assert(calls@ =~= old(self).release_calls());
        calls
    }
}

/// The making of a [`CommandPool`]: one call.
#[derive(Debug, Clone, Copy, PartialEq, Eq)]
pub struct CommandPoolSetup {
    pub device: Device,
    pub state: Single,
}

impl CommandPoolSetup {
    /// The device that the pool is made on.
    pub open spec fn device(&self) -> Device {
        self.device
    }

    /// How far the making has come.
    pub open spec fn state(&self) -> Single {
        self.state
    }

    /// The shape of the reply that is waited for; none once the making has
    /// ended.
    pub open spec fn awaits(&self) -> Option<ReplyKind> {
        if self.state() is Asking {
            Some(ReplyKind::Handle)
        } else {
            None
        }
    }

    /// The call that is pending, if the making has not ended: the
    /// creation of a pool on the family of the device's queue, whose
    /// command buffers can be reset one by one.
    pub open spec fn pending(&self) -> Option<Call> {
        if self.state() is Asking {
            Some(
                Call::CreateCommandPool {
                    device: self.device().handle(),
                    info: VkCommandPoolCreateInfo {
                        sType: VkStructureType::VK_STRUCTURE_TYPE_COMMAND_POOL_CREATE_INFO,
                        flags: 2,
                        queueFamilyIndex: self.device().queue().family().index() as u32,
                    },
                },
            )
        } else {
            None
        }
    }

    /// The call to make now.
    pub fn call(&self) -> (c: Option<Call>)
        ensures
            c == self.pending(),
    {
        match self.state {
            Single::Asking => Some(
                Call::CreateCommandPool {
                    device: self.device.handle(),
                    info: VkCommandPoolCreateInfo::new(self.device.queue_family_index()),
                },
            ),
            _ => None,
        }
    }

    /// Takes the answer to the creation.
    pub fn reply(self, reply: Reply) -> (next: Self)
        requires
            self.awaits() == Some(reply.kind()),
        ensures
            next.device() == self.device(),
            next.state() == self.state().accept(reply),
    {
        CommandPoolSetup { device: self.device, state: self.state.accept(reply) }
    }

    /// The pool, once the making has ended: the one at the address that
    /// the driver gave, or the error of the status that it returned.
    pub fn finish(self) -> (r: Result<CommandPool, Error>)
        requires
            self.awaits().is_none(),
        ensures
            match self.state() {
                Single::Ready(address) => r.is_ok() && r.unwrap().handle().address == address
                    && r.unwrap().device() == self.device(),
                Single::Failed(status) => r.is_err() && r.unwrap_err().spec_code()
                    == ErrorCode::VkResult(status),
                Single::Asking => false,
            },
    {
        match self.state {
            Single::Ready(address) => Ok(
                CommandPool { handle: VkCommandPool::from_address(address), device: self.device },
            ),
            Single::Failed(status) => Err(Error::new(ErrorCode::VkResult(status))),
            Single::Asking => Err(Error::new(ErrorCode::VkResult(VkResult::VK_NOT_READY))),
        }
    }
}

/// Where the code of a shader comes from.
#[derive(Debug, Clone, PartialEq, Eq)]
pub enum ShaderModuleSource {
    /// The file at this path.
    FilePath(String),
    /// These bytes.
    Bytes(Vec<u8>),
}

impl ShaderModuleSource {
    /// The source that is the file at `filename`.
    pub fn from_file(filename: String) -> (r: Self)
        ensures
            r == ShaderModuleSource::FilePath(filename),
    {
        ShaderModuleSource::FilePath(filename)
    }

    /// The source that is `bytes`.
    pub fn from_bytes(bytes: Vec<u8>) -> (r: Self)
        ensures
            r == ShaderModuleSource::Bytes(bytes),
    {
        ShaderModuleSource::Bytes(bytes)
    }

    /// Whether `length` bytes can be shader code: there is at least one
    /// byte, and the bytes make whole 32-bit words.
    pub open spec fn aligned(length: nat) -> bool {
        length > 0 && length % 4 == 0
    }

    /// Takes `bytes` as shader code: gives them back with their number
    /// where they can be code, and `ShaderLoadUnaligned` where they cannot.
    pub fn load(bytes: Vec<u8>) -> (r: Result<(Vec<u8>, usize), Error>)
        ensures
            match r {
                Ok((code, length)) => Self::aligned(bytes@.len()) && code == bytes && length
                    == bytes@.len(),
                Err(error) => !Self::aligned(bytes@.len()) && error.spec_code()
                    == ErrorCode::ShaderLoadUnaligned,
            },
    {
        let length = bytes.len();
        if length > 0 && length % 4 == 0 {
            Ok((bytes, length))
        } else {
            Err(Error::new(ErrorCode::ShaderLoadUnaligned))
        }
    }
}

/// Shader code that the driver holds.
#[derive(Debug, Clone, Copy, PartialEq, Eq)]
pub struct ShaderModule {
    pub handle: VkShaderModule,
    pub device: Device,
}

impl ShaderModule {
    /// Begins the making of a shader module from `source`: with the
    /// reading of the file where the source is a file, with the creation
    /// of the module where it is bytes that can be code, and ended with
    /// `ShaderLoadUnaligned` where it is bytes that cannot.
    pub fn new(device: &Device, source: ShaderModuleSource) -> (r: ShaderModuleSetup)
        ensures
            r == ShaderModuleSetup::begin(*device, source),
    {
        let state = match source {
            ShaderModuleSource::FilePath(path) => ShaderModuleState::Read(path),
            ShaderModuleSource::Bytes(bytes) => ShaderModuleState::loaded(bytes),
        };
        ShaderModuleSetup { device: *device, state }
    }

    pub open spec fn spec_handle(&self) -> VkShaderModule {
        self.handle
    }

    /// The driver's handle of the module; null once it is released.
    #[verifier::when_used_as_spec(spec_handle)]
    pub fn handle(&self) -> (r: VkShaderModule)
        ensures
            r == self.spec_handle(),
    {
        self.handle
    }

    /// The device that holds the module.
    pub open spec fn device(&self) -> Device {
        self.device
    }

    /// The calls that give the module back: one that destroys it, or none
    /// where it has been released before.
    pub open spec fn release_calls(&self) -> Seq<Call> {
        if self.handle().address == 0 {
            seq![]
        } else {
            seq![
                Call::DestroyShaderModule {
                    device: self.device().handle(),
                    shader_module: self.handle(),
                },
            ]
        }
    }

    /// Releases the module: says which calls give it back, and forgets the
    /// handle.
    pub fn release(&mut self) -> (calls: Vec<Call>)
        ensures
            calls@ == old(self).release_calls(),
            final(self).handle().address == 0,
            final(self).device() == old(self).device(),
    {
        let mut calls: Vec<Call> = Vec::new();
        if !self.handle.is_null() {
            calls.push(
                Call::DestroyShaderModule {
                    device: self.device.handle(),
                    shader_module: self.handle,
                },
            );
            self.handle = VkShaderModule::null();
        }
        assert(calls@ =~= old(self).release_calls());
        calls
    }
}

/// How far the making of a shader module has come.
#[derive(Debug)]
pub enum ShaderModuleState {
    /// The file at this path is being read.
    Read(String),
    /// The module is being created from this code.
    Create(Vec<u8>),
    /// The module is made, at this address.
    Ready(usize),
    /// No module could be made, for this reason.
    Failed(ErrorCode),
}

impl ShaderModuleState {
    /// The state that `bytes` lead to, once they are at hand: the creation
    /// of the module where they can be code, and failure with
    /// `ShaderLoadUnaligned` where they cannot.
    pub open spec fn spec_loaded(bytes: Vec<u8>) -> Self {
        if ShaderModuleSource::aligned(bytes@.len()) {
            ShaderModuleState::Create(bytes)
        } else {
            ShaderModuleState::Failed(ErrorCode::ShaderLoadUnaligned)
        }
    }

    /// The state that `bytes` lead to, once they are at hand.
    #[verifier::when_used_as_spec(spec_loaded)]
    pub fn loaded(bytes: Vec<u8>) -> (r: Self)
        ensures
            r == Self::spec_loaded(bytes),
    {
        match ShaderModuleSource::load(bytes) {
            Ok((code, _)) => ShaderModuleState::Create(code),
            Err(_) => ShaderModuleState::Failed(ErrorCode::ShaderLoadUnaligned),
        }
    }
}

/// The making of a [`ShaderModule`].
#[derive(Debug)]
pub struct ShaderModuleSetup {
    pub device: Device,
    pub state: ShaderModuleState,
}

impl ShaderModuleSetup {
    /// The making of a shader module from `source`, of which nothing has
    /// happened yet: it begins with the reading of the file where the
    /// source is a file, and with the bytes where it is bytes.
    pub open spec fn begin(device: Device, source: ShaderModuleSource) -> Self {
        ShaderModuleSetup {
            device,
            state: match source {
                ShaderModuleSource::FilePath(path) => ShaderModuleState::Read(path),
                ShaderModuleSource::Bytes(bytes) => ShaderModuleState::loaded(bytes),
            },
        }
    }

    /// The shape of the reply that is waited for; none once the making has
    /// ended.
    pub open spec fn awaits(&self) -> Option<ReplyKind> {
        match self.state {
            ShaderModuleState::Read(_) => Some(ReplyKind::File),
            ShaderModuleState::Create(_) => Some(ReplyKind::Handle),
            _ => None,
        }
    }

    /// Whether `c` is the call to make now: the reading of the file, or
    /// the creation of the module from all bytes of the code.
    pub open spec fn calls(&self, c: Option<Call>) -> bool {
        match self.state {
            ShaderModuleState::Read(path) => c matches Some(Call::ReadFile { path: asked })
                && asked@ == path@,
            ShaderModuleState::Create(code) => {
                &&& c matches Some(Call::CreateShaderModule { device, info })
                &&& device == self.device.handle()
                &&& info.sType
                    == VkStructureType::VK_STRUCTURE_TYPE_SHADER_MODULE_CREATE_INFO
                &&& info.flags == 0
                &&& info.codeSize == code@.len()
                &&& info.code@ == code@
            },
            _ => c.is_none(),
        }
    }

    /// The call to make now.
    pub fn call(&self) -> (c: Option<Call>)
        ensures
            self.calls(c),
    {
        match &self.state {
            ShaderModuleState::Read(path) => Some(Call::ReadFile { path: path.clone() }),
            ShaderModuleState::Create(code) => {
                let bytes = code.clone();
                assert(bytes@ =~= code@);
                Some(
                    Call::CreateShaderModule {
                        device: self.device.handle(),
                        info: VkShaderModuleCreateInfo::new(code.len(), bytes),
                    },
                )
            },
            _ => None,
        }
    }

    /// Where the answer `reply` to the pending call leads.
    ///
    /// A file that could not be read ends the making with `ShaderLoadIO`
    /// and the reason. Bytes that were read lead to the creation of the
    /// module where they can be code, and end the making with
    /// `ShaderLoadUnaligned` where they cannot. A status other than
    /// success ends the making with the error of that status.
    pub open spec fn after(&self, reply: Reply) -> ShaderModuleState {
        match (self.state, reply) {
            (ShaderModuleState::Read(_), Reply::File(Ok(bytes))) => ShaderModuleState::loaded(
                bytes,
            ),
            (ShaderModuleState::Read(_), Reply::File(Err(reason))) => ShaderModuleState::Failed(
                ErrorCode::ShaderLoadIO(reason),
            ),
            (ShaderModuleState::Create(_), Reply::Handle(VkResult::VK_SUCCESS, address)) => {
                ShaderModuleState::Ready(address)
            },
            (ShaderModuleState::Create(_), Reply::Handle(status, _)) => ShaderModuleState::Failed(
                ErrorCode::VkResult(status),
            ),
            (state, _) => state,
        }
    }

    /// The making after the answer `reply` to the pending call.
    pub open spec fn replied(self, reply: Reply) -> Self {
        ShaderModuleSetup { device: self.device, state: self.after(reply) }
    }

    /// Takes the answer to the pending call.
    pub fn reply(self, reply: Reply) -> (next: Self)
        requires
            self.awaits() == Some(reply.kind()),
        ensures
            next == self.replied(reply),
    {
        let state = match (self.state, reply) {
            (ShaderModuleState::Read(_), Reply::File(Ok(bytes))) => ShaderModuleState::loaded(
                bytes,
            ),
            (ShaderModuleState::Read(_), Reply::File(Err(reason))) => ShaderModuleState::Failed(
                ErrorCode::ShaderLoadIO(reason),
            ),
            (ShaderModuleState::Create(_), Reply::Handle(VkResult::VK_SUCCESS, address)) => {
                ShaderModuleState::Ready(address)
            },
            (ShaderModuleState::Create(_), Reply::Handle(status, _)) => ShaderModuleState::Failed(
                ErrorCode::VkResult(status),
            ),
            (state, _) => state,
        };
        ShaderModuleSetup { device: self.device, state }
    }

    /// The module that has been made; meaningful once the making has
    /// ended well.
    pub open spec fn made(self) -> ShaderModule {
        ShaderModule { handle: VkShaderModule::at(self.state->Ready_0), device: self.device }
    }

    /// The module, once the making has ended, or why there is none.
    pub fn finish(self) -> (r: Result<ShaderModule, Error>)
        requires
            self.awaits().is_none(),
        ensures
            match self.state {
                ShaderModuleState::Ready(_) => r == Ok::<ShaderModule, Error>(self.made()),
                ShaderModuleState::Failed(code) => r.is_err() && r.unwrap_err().spec_code()
                    == code,
                _ => false,
            },
    {
        match self.state {
            ShaderModuleState::Ready(address) => Ok(
                ShaderModule { handle: VkShaderModule::from_address(address), device: self.device },
            ),
            ShaderModuleState::Failed(code) => Err(Error::new(code)),
            _ => Err(Error::new(ErrorCode::ShaderLoadUnaligned)),
        }
    }
}

} // verus!
