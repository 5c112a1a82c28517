//! The instance, its physical devices and their queue families.

use vstd::prelude::*;
use crate::driver::{Call, Reply, ReplyKind, Single};
use crate::error::{Error, ErrorCode};
use crate::names::c_string;
use crate::vk::enums::{VkResult, VkStructureType};
use crate::vk::types::{
    VkApplicationInfo, VkInstance, VkInstanceCreateInfo, VkPhysicalDevice,
    VkQueueFamilyProperties, VK_API_VERSION_1_1,
};

verus! {

/// The bytes of the application's name, "stala".
pub open spec fn application_name() -> Seq<u8> {
    seq![115u8, 116u8, 97u8, 108u8, 97u8]
}

/// The bytes of the engine's name, "Stalactite Engine".
pub open spec fn engine_name() -> Seq<u8> {
    seq![
        83u8, 116u8, 97u8, 108u8, 97u8, 99u8, 116u8, 105u8, 116u8, 101u8, 32u8, 69u8, 110u8,
        103u8, 105u8, 110u8, 101u8,
    ]
}

/// The connection to the driver.
#[derive(Debug, Clone, Copy, PartialEq, Eq)]
pub struct Instance {
    pub handle: VkInstance,
}

impl Instance {
    /// Begins the making of an instance for the application "stala" and the
    /// engine "Stalactite Engine", both of version 0.
    pub fn new() -> (r: InstanceSetup)
        ensures
            r.state() == Single::Asking,
    {
        InstanceSetup { state: Single::Asking }
    }

    pub open spec fn spec_handle(&self) -> VkInstance {
        self.handle
    }

    /// The driver's handle of the instance; null once it is released.
    #[verifier::when_used_as_spec(spec_handle)]
    pub fn handle(&self) -> (r: VkInstance)
        ensures
            r == self.spec_handle(),
    {
        self.handle
    }

    /// The calls that give the instance back: one that destroys it, or
    /// none where it has been released before.
    pub open spec fn release_calls(&self) -> Seq<Call> {
        if self.handle().address == 0 {
            seq![]
        } else {
            seq![Call::DestroyInstance { instance: self.handle() }]
        }
    }

    /// Releases the instance: says which calls give it back, and forgets
    /// the handle.
    pub fn release(&mut self) -> (calls: Vec<Call>)
        ensures
            calls@ == old(self).release_calls(),
            final(self).handle().address == 0,
    {
        let mut calls: Vec<Call> = Vec::new();
        if !self.handle.is_null() {
            calls.push(Call::DestroyInstance { instance: self.handle });
            self.handle = VkInstance::null();
        }
        assert(calls@ =~= old(self).release_calls());
        calls
    }
}

/// The making of an [`Instance`]: one call.
#[derive(Debug, Clone, Copy, PartialEq, Eq)]
pub struct InstanceSetup {
    pub state: Single,
}

impl InstanceSetup {
    /// How far the making has come.
    pub open spec fn state(&self) -> Single {
        self.state
    }

    /// The shape of the reply that is waited for; none once the making has
    /// ended.
    pub open spec fn awaits(&self) -> Option<ReplyKind> {
        if self.state() is Asking {
            Some(ReplyKind::Handle)
        } else {
            None
        }
    }

    /// Whether `c` is the call to make now: the creation of the instance,
    /// until it is answered.
    pub open spec fn calls(&self, c: Option<Call>) -> bool {
        match c {
            Some(Call::CreateInstance { info }) => {
                &&& self.state() is Asking
                &&& info.sType == VkStructureType::VK_STRUCTURE_TYPE_INSTANCE_CREATE_INFO
                &&& info.flags == 0
                &&& info.enabledLayerCount == 0
                &&& info.enabledExtensionCount == 0
                &&& info.applicationInfo.sType
                    == VkStructureType::VK_STRUCTURE_TYPE_APPLICATION_INFO
                &&& info.applicationInfo.applicationName@ == application_name().push(0)
                &&& info.applicationInfo.applicationVersion == 0
                &&& info.applicationInfo.engineName@ == engine_name().push(0)
                &&& info.applicationInfo.engineVersion == 0
                &&& info.applicationInfo.apiVersion == VK_API_VERSION_1_1
            },
            Some(_) => false,
            None => !(self.state() is Asking),
        }
    }

    /// The call to make now.
    pub fn call(&self) -> (c: Option<Call>)
        ensures
            self.calls(c),
    {
        match self.state {
            Single::Asking => {
                let application: Vec<u8> = vec![115u8, 116u8, 97u8, 108u8, 97u8];
                let engine: Vec<u8> = vec![
                    83u8, 116u8, 97u8, 108u8, 97u8, 99u8, 116u8, 105u8, 116u8, 101u8, 32u8, 69u8,
                    110u8, 103u8, 105u8, 110u8, 101u8,
                ];
                assert(application@ =~= application_name());
                assert(engine@ =~= engine_name());
                match (c_string(application.as_slice()), c_string(engine.as_slice())) {
                    (Ok(application_name), Ok(engine_name)) => {
                        let app_info = VkApplicationInfo::new(
                            application_name,
                            0,
                            engine_name,
                            0,
                        );
                        Some(Call::CreateInstance { info: VkInstanceCreateInfo::new(app_info) })
                    },
                    _ => {
                        proof {
                            assert(forall|k: int|
                                0 <= k < application@.len() ==> application@[k] != 0);
                            assert(forall|k: int| 0 <= k < engine@.len() ==> engine@[k] != 0);
                        }
                        None
                    },
                }
            },
            _ => None,
        }
    }

    /// Takes the answer to the creation.
    pub fn reply(self, reply: Reply) -> (next: Self)
        requires
            self.awaits() == Some(reply.kind()),
        ensures
            next.state() == self.state().accept(reply),
    {
        InstanceSetup { state: self.state.accept(reply) }
    }

    /// The instance, once the making has ended: the one at the address
    /// that the driver gave, or the error of the status that it returned.
    pub fn finish(self) -> (r: Result<Instance, Error>)
        requires
            self.awaits().is_none(),
        ensures
            match self.state() {
                Single::Ready(address) => r.is_ok() && r.unwrap().handle().address == address,
                Single::Failed(status) => r.is_err() && r.unwrap_err().spec_code()
                    == ErrorCode::VkResult(status),
                Single::Asking => false,
            },
    {
        match self.state {
            Single::Ready(address) => Ok(Instance { handle: VkInstance::from_address(address) }),
            Single::Failed(status) => Err(Error::new(ErrorCode::VkResult(status))),
            Single::Asking => Err(Error::new(ErrorCode::VkResult(VkResult::VK_NOT_READY))),
        }
    }
}

/// The enumeration of the physical devices of an instance: one call.
#[derive(Debug)]
pub struct PhysicalDevicesBuilder {
    pub instance: Instance,
    pub state: Enumeration,
}

/// How far an enumeration of physical devices has come.
#[derive(Debug)]
pub enum Enumeration {
    /// The call has not been answered.
    Asking,
    /// The driver listed these devices.
    Listed(Vec<VkPhysicalDevice>),
    /// The driver returned this status, which is not success.
    Failed(VkResult),
}

impl PhysicalDevicesBuilder {
    /// Begins the enumeration of the physical devices of `instance`.
    pub fn new(instance: &Instance) -> (r: Self)
        ensures
            r.instance() == *instance,
            r.state() is Asking,
    {
        PhysicalDevicesBuilder { instance: *instance, state: Enumeration::Asking }
    }

    /// The instance whose devices are listed.
    pub open spec fn instance(&self) -> Instance {
        self.instance
    }

    /// How far the enumeration has come.
    pub open spec fn state(&self) -> Enumeration {
        self.state
    }

    /// The shape of the reply that is waited for; none once the
    /// enumeration has ended.
    pub open spec fn awaits(&self) -> Option<ReplyKind> {
        if self.state() is Asking {
            Some(ReplyKind::PhysicalDevices)
        } else {
            None
        }
    }

    /// The call to make now: the enumeration, until it is answered.
    pub fn call(&self) -> (c: Option<Call>)
        ensures
            c == if self.state() is Asking {
                Some(Call::EnumeratePhysicalDevices { instance: self.instance().handle() })
            } else {
                None
            },
    {
        match self.state {
            Enumeration::Asking => Some(
                Call::EnumeratePhysicalDevices { instance: self.instance.handle() },
            ),
            _ => None,
        }
    }

    /// Takes the answer to the enumeration: the devices that came with
    /// success, or the status that came instead.
    pub fn reply(self, reply: Reply) -> (next: Self)
        requires
            self.awaits() == Some(reply.kind()),
        ensures
            next.instance() == self.instance(),
            match reply {
                Reply::PhysicalDevices(VkResult::VK_SUCCESS, devices) => next.state()
                    == Enumeration::Listed(devices),
                Reply::PhysicalDevices(status, _) => next.state() == Enumeration::Failed(status),
                _ => false,
            },
    {
        let state = match reply {
            Reply::PhysicalDevices(VkResult::VK_SUCCESS, devices) => Enumeration::Listed(devices),
            Reply::PhysicalDevices(status, _) => Enumeration::Failed(status),
            _ => Enumeration::Asking,
        };
        PhysicalDevicesBuilder { instance: self.instance, state }
    }

    /// The physical devices of the instance, in the driver's order, or the
    /// error of the status that the driver returned.
    pub fn build(self) -> (r: Result<Vec<PhysicalDevice>, Error>)
        requires
            self.awaits().is_none(),
        ensures
            match self.state() {
                Enumeration::Listed(handles) => {
                    &&& r.is_ok()
                    &&& r.unwrap()@.len() == handles@.len()
                    &&& forall|i: int|
                        0 <= i < handles@.len() ==> (#[trigger] r.unwrap()@[i]).handle()
                            == handles@[i] && r.unwrap()@[i].instance() == self.instance()
                },
                Enumeration::Failed(status) => r.is_err() && r.unwrap_err().spec_code()
                    == ErrorCode::VkResult(status),
                Enumeration::Asking => false,
            },
    {
        match self.state {
            Enumeration::Listed(handles) => {
                let mut devices: Vec<PhysicalDevice> = Vec::new();
                let mut i: usize = 0;
                while i < handles.len()
                    invariant
                        i <= handles@.len(),
                        devices@.len() == i,
                        forall|k: int|
                            0 <= k < i ==> (#[trigger] devices@[k]).handle() == handles@[k]
                                && devices@[k].instance() == self.instance,
                    decreases handles@.len() - i,
                {
                    devices.push(PhysicalDevice::new(handles[i], &self.instance));
                    i += 1;
                }
                Ok(devices)
            },
            Enumeration::Failed(status) => Err(Error::new(ErrorCode::VkResult(status))),
            Enumeration::Asking => Err(Error::new(ErrorCode::VkResult(VkResult::VK_NOT_READY))),
        }
    }
}

/// One physical device of an instance.
#[derive(Debug, Clone, Copy, PartialEq, Eq)]
pub struct PhysicalDevice {
    pub handle: VkPhysicalDevice,
    pub instance: Instance,
}

impl PhysicalDevice {
    /// The physical device of `instance` that `device` refers to.
    pub fn new(device: VkPhysicalDevice, instance: &Instance) -> (r: Self)
        ensures
            r.handle() == device,
            r.instance() == *instance,
    {
        PhysicalDevice { handle: device, instance: *instance }
    }

    pub open spec fn spec_handle(&self) -> VkPhysicalDevice {
        self.handle
    }

    /// The driver's handle of the device.
    #[verifier::when_used_as_spec(spec_handle)]
    pub fn handle(&self) -> (r: VkPhysicalDevice)
        ensures
            r == self.spec_handle(),
    {
        self.handle
    }

    pub open spec fn spec_instance(&self) -> &Instance {
        &self.instance
    }

    /// The instance that the device belongs to.
    #[verifier::when_used_as_spec(spec_instance)]
    pub fn instance(&self) -> (r: &Instance)
        ensures
            r == self.spec_instance(),
    {
        &self.instance
    }

    /// Begins the query of the device's queue families.
    pub fn queue_families(&self) -> (r: QueueFamiliesQuery)
        ensures
            r.physical_device() == self.handle(),
            r.properties().is_none(),
    {
        QueueFamiliesQuery { physical_device: self.handle, properties: None }
    }
}

/// The query of the queue families of a physical device: one call.
#[derive(Debug)]
pub struct QueueFamiliesQuery {
    pub physical_device: VkPhysicalDevice,
    pub properties: Option<Vec<VkQueueFamilyProperties>>,
}

impl QueueFamiliesQuery {
    /// The device that is asked.
    pub open spec fn physical_device(&self) -> VkPhysicalDevice {
        self.physical_device
    }

    /// What the driver answered, once it has.
    pub open spec fn properties(&self) -> Option<Vec<VkQueueFamilyProperties>> {
        self.properties
    }

    /// The shape of the reply that is waited for; none once the query has
    /// been answered.
    pub open spec fn awaits(&self) -> Option<ReplyKind> {
        if self.properties().is_none() {
            Some(ReplyKind::QueueFamilies)
        } else {
            None
        }
    }

    /// The call to make now: the query, until it is answered.
    pub fn call(&self) -> (c: Option<Call>)
        ensures
            c == if self.properties().is_none() {
                Some(
                    Call::GetPhysicalDeviceQueueFamilyProperties {
                        physical_device: self.physical_device(),
                    },
                )
            } else {
                None
            },
    {
        match self.properties {
            None => Some(
                Call::GetPhysicalDeviceQueueFamilyProperties {
                    physical_device: self.physical_device,
                },
            ),
            Some(_) => None,
        }
    }

    /// Takes the answer to the query.
    pub fn reply(self, reply: Reply) -> (next: Self)
        requires
            self.awaits() == Some(reply.kind()),
        ensures
            next.physical_device() == self.physical_device(),
            reply matches Reply::QueueFamilies(properties) && next.properties() == Some(
                properties,
            ),
    {
        match reply {
            Reply::QueueFamilies(properties) => QueueFamiliesQuery {
                physical_device: self.physical_device,
                properties: Some(properties),
            },
            _ => self,
        }
    }

    /// The queue families of the device: family `i` has index `i` and the
    /// properties that the driver listed at position `i`.
    pub fn finish(self) -> (r: Result<Vec<QueueFamily>, Error>)
        requires
            self.awaits().is_none(),
        ensures
            r.is_ok(),
            r.unwrap()@.len() == self.properties().unwrap()@.len(),
            forall|i: int|
                0 <= i < r.unwrap()@.len() ==> (#[trigger] r.unwrap()@[i]).index() == i
                    && r.unwrap()@[i].property() == self.properties().unwrap()@[i],
    {
        let properties = match self.properties {
            Some(properties) => properties,
            None => Vec::new(),
        };
        let mut families: Vec<QueueFamily> = Vec::new();
        let mut i: usize = 0;
        while i < properties.len()
            invariant
                i <= properties@.len(),
                families@.len() == i,
                forall|k: int|
                    0 <= k < i ==> (#[trigger] families@[k]).index() == k && families@[k].property()
                        == properties@[k],
            decreases properties@.len() - i,
        {
            families.push(QueueFamily::new(i, properties[i]));
            i += 1;
        }
        Ok(families)
    }
}

/// One queue family of a physical device.
#[derive(Debug, Clone, Copy, PartialEq, Eq)]
pub struct QueueFamily {
    pub index: usize,
    pub property: VkQueueFamilyProperties,
}

impl QueueFamily {
    /// The family at position `index` with the given properties.
    pub fn new(index: usize, property: VkQueueFamilyProperties) -> (r: Self)
        ensures
            r.index() == index,
            r.property() == property,
    {
        QueueFamily { index, property }
    }

    pub open spec fn spec_index(&self) -> usize {
        self.index
    }

    /// The position of the family among the families of its device.
    #[verifier::when_used_as_spec(spec_index)]
    pub fn index(&self) -> (r: usize)
        ensures
            r == self.spec_index(),
    {
        self.index
    }

    /// What the driver says of the family.
    pub open spec fn property(&self) -> VkQueueFamilyProperties {
        self.property
    }

    pub open spec fn spec_queue_count(&self) -> u32 {
        self.property().queueCount
    }

    /// How many queues the family has.
    #[verifier::when_used_as_spec(spec_queue_count)]
    pub fn queue_count(&self) -> (r: u32)
        ensures
            r == self.spec_queue_count(),
    {
        self.property.queueCount
    }

    pub open spec fn spec_is_compute(&self) -> bool {
        self.property().has_compute_queue_bit()
    }

    /// Whether the queues of the family run compute work.
    #[verifier::when_used_as_spec(spec_is_compute)]
    pub fn is_compute(&self) -> (r: bool)
        ensures
            r == self.spec_is_compute(),
    {
        self.property.has_compute_queue_bit()
    }
}

} // verus!
