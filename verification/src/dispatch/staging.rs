//! The staging buffer: two buffers of one size, cut into regions.

use vstd::prelude::*;
use super::masks::{
    DEVICE_BUFFER_USAGE, DEVICE_MEMORY_PROPERTIES, HOST_BUFFER_USAGE, HOST_MEMORY_PROPERTIES,
};
use super::region::{RegionAccess, RegionStage, StagingBufferRegion, StagingBufferRegionSetup};
use crate::device::{BufferMemory, BufferMemorySetup, BufferMemoryState, CommandPool, Device};
use crate::driver::{Call, Reply, ReplyKind};
use crate::error::{Error, ErrorCode};
use crate::layout::{lemma_offset_step, lemma_part_within, offset, total};
use crate::vk::enums::VkResult;
use crate::vk::types::{VkBuffer, VkBufferCopy, VkDeviceMemory, VkDeviceSize};

verus! {

/// The sizes of `regions`, in order.
pub open spec fn region_sizes(regions: Seq<StagingBufferRegion>) -> Seq<nat> {
    Seq::new(regions.len(), |i: int| regions[i].copy_region.size as nat)
}

/// The sizes `sizes` as numbers without a bound.
pub open spec fn sizes_of(sizes: Seq<usize>) -> Seq<nat> {
    Seq::new(sizes.len(), |i: int| sizes[i] as nat)
}

/// Whether `regions` are the first regions of the layout with the sizes
/// `sizes`: each begins where the one before it ends, the first at 0, has
/// its size, and belongs to the two buffers, the pool and the mapping
/// given.
pub open spec fn laid_out(
    regions: Seq<StagingBufferRegion>,
    sizes: Seq<nat>,
    command_pool: CommandPool,
    host_buffer_memory: BufferMemory,
    device_buffer_memory: BufferMemory,
    mapped: usize,
) -> bool {
    &&& regions.len() <= sizes.len()
    &&& forall|i: int|
        0 <= i < regions.len() ==> {
            &&& (#[trigger] regions[i]).copy_region.srcOffset == offset(sizes, i)
            &&& regions[i].copy_region.dstOffset == offset(sizes, i)
            &&& regions[i].copy_region.size == sizes[i]
            &&& regions[i].command_pool == command_pool
            &&& regions[i].host_buffer_memory == host_buffer_memory
            &&& regions[i].device_buffer_memory == device_buffer_memory
            &&& regions[i].mapped == mapped
        }
}

/// The calls that release `regions`, the first region first.
pub open spec fn regions_release(regions: Seq<StagingBufferRegion>) -> Seq<Call>
    decreases regions.len(),
{
    if regions.len() == 0 {
        seq![]
    } else {
        regions_release(regions.drop_last()) + regions.last().release_calls()
    }
}

/// The calls that give back what was acquired for `regions`, the last
/// region first.
pub open spec fn regions_unwind(regions: Seq<StagingBufferRegion>) -> Seq<Call>
    decreases regions.len(),
{
    if regions.len() == 0 {
        seq![]
    } else {
        regions.last().unwind_calls() + regions_unwind(regions.drop_last())
    }
}

/// A host-visible buffer and a device-local buffer of one size, cut into
/// regions that follow one another without gaps, with the host-visible
/// buffer mapped for as long as the staging buffer lives.
///
/// A region begins exactly where the one before it ends: no offset and no
/// size is rounded. The ranges that are flushed and invalidated are those
/// of the regions, so on memory that is not coherent the caller chooses
/// region sizes that are multiples of the device's non-coherent atom size.
#[derive(Debug)]
pub struct StagingBuffer {
    buffer_size: VkDeviceSize,
    regions: Vec<StagingBufferRegion>,
    host_buffer_memory: BufferMemory,
    device_buffer_memory: BufferMemory,
    command_pool: CommandPool,
    mapped: usize,
}

/// What a [`StagingBuffer`] holds.
pub struct StagingBufferView {
    pub buffer_size: VkDeviceSize,
    pub regions: Seq<StagingBufferRegion>,
    pub host_buffer_memory: BufferMemory,
    pub device_buffer_memory: BufferMemory,
    pub command_pool: CommandPool,
    pub mapped: usize,
}

impl StagingBufferView {
    /// The sizes of the regions, in order.
    pub open spec fn sizes(self) -> Seq<nat> {
        region_sizes(self.regions)
    }

    /// Whether the two buffers are two: whether their handles differ.
    pub open spec fn distinct(self) -> bool {
        self.host_buffer_memory.buffer != self.device_buffer_memory.buffer
    }

    /// The invariant of a staging buffer: the two buffers are of the size
    /// of the staging buffer and, until they are released, are two; the
    /// regions are laid end to end from offset 0 and fill them exactly.
    pub open spec fn wf(self) -> bool {
        &&& self.host_buffer_memory.whole_size == self.buffer_size
        &&& self.device_buffer_memory.whole_size == self.buffer_size
        &&& self.released() || self.distinct()
        &&& total(self.sizes()) == self.buffer_size
        &&& laid_out(
            self.regions,
            self.sizes(),
            self.command_pool,
            self.host_buffer_memory,
            self.device_buffer_memory,
            self.mapped,
        )
    }

    /// Whether the staging buffer has been released.
    pub open spec fn released(self) -> bool {
        self.host_buffer_memory.buffer.address == 0 && self.host_buffer_memory.memory.address
            == 0
    }

    /// The calls that give the staging buffer back: the host-visible
    /// memory is unmapped, the regions are released in order, the
    /// host-visible and then the device-local buffer are released. None
    /// where it has been released before.
    pub open spec fn release_calls(self) -> Seq<Call> {
        if self.released() {
            seq![]
        } else {
            seq![
                Call::UnmapMemory {
                    device: self.command_pool.device.handle(),
                    memory: self.host_buffer_memory.memory,
                },
            ] + regions_release(self.regions) + self.host_buffer_memory.release_calls()
                + self.device_buffer_memory.release_calls()
        }
    }
}

impl View for StagingBuffer {
    type V = StagingBufferView;

    closed spec fn view(&self) -> StagingBufferView {
        StagingBufferView {
            buffer_size: self.buffer_size,
            regions: self.regions@,
            host_buffer_memory: self.host_buffer_memory,
            device_buffer_memory: self.device_buffer_memory,
            command_pool: self.command_pool,
            mapped: self.mapped,
        }
    }
}

impl StagingBuffer {
    #[verifier::type_invariant]
    spec fn inv(self) -> bool {
        self@.wf()
    }

    /// The sum of `region_sizes`, where the driver can take it as the size
    /// of a buffer.
    pub fn total_size(region_sizes: &[usize]) -> (r: Option<VkDeviceSize>)
        ensures
            match r {
                Some(size) => size == total(sizes_of(region_sizes@)),
                None => total(sizes_of(region_sizes@)) > u64::MAX,
            },
    {
        let ghost sizes = sizes_of(region_sizes@);
        let mut sum: u64 = 0;
        let mut i: usize = 0;
        while i < region_sizes.len()
            invariant
                i <= region_sizes@.len(),
                sizes == sizes_of(region_sizes@),
                sum == offset(sizes, i as int),
            decreases region_sizes@.len() - i,
        {
            let size = region_sizes[i] as u64;
            proof {
                lemma_offset_step(sizes, i as int);
                lemma_part_within(sizes, i as int);
            }
            if size > u64::MAX - sum {
                return None;
            }
            sum = sum + size;
            i += 1;
        }
        proof {
            assert(sizes.take(sizes.len() as int) =~= sizes);
        }
        Some(sum)
    }

    /// Begins the making of a staging buffer whose regions have the sizes
    /// `region_sizes`, in that order.
    pub fn new(command_pool: &CommandPool, region_sizes: &[usize]) -> (r: StagingBufferSetup)
        requires
            total(sizes_of(region_sizes@)) <= u64::MAX,
        ensures
            r@ == StagingBufferSetupView::begin(*command_pool, region_sizes@),
    {
        let buffer_size = match Self::total_size(region_sizes) {
            Some(size) => size,
            None => 0,
        };
        let mut sizes: Vec<usize> = Vec::new();
        let mut i: usize = 0;
        while i < region_sizes.len()
            invariant
                i <= region_sizes@.len(),
                sizes@ == region_sizes@.take(i as int),
            decreases region_sizes@.len() - i,
        {
            sizes.push(region_sizes[i]);
            assert(sizes@ =~= region_sizes@.take(i + 1));
            i += 1;
        }
        assert(sizes@ =~= region_sizes@);
        StagingBufferSetup {
            command_pool: *command_pool,
            sizes,
            buffer_size,
            host: None,
            device: None,
            mapped: 0,
            regions: Vec::new(),
            step: StagingStep::Host(
                BufferMemory::new(
                    command_pool.device(),
                    HOST_BUFFER_USAGE,
                    HOST_MEMORY_PROPERTIES,
                    buffer_size,
                ),
            ),
        }
    }

    /// Begins a write to region `region_index` through a view of items of
    /// `item_size` bytes: the caller may write the whole items that lie in
    /// the region.
    pub fn write_region_with_slice(&self, region_index: usize, item_size: usize) -> (r:
        RegionAccess)
        requires
            region_index < self@.regions.len(),
            item_size > 0,
        ensures
            r == RegionAccess::begin_write(
                self@.regions[region_index as int],
                (self@.regions[region_index as int].size() as int / item_size as int
                    * item_size) as u64,
            ),
    {
        let region = &self.regions[region_index];
        let count = region.slice_len(item_size);
        assert(count * item_size <= u64::MAX);
        RegionAccess::write(region, count * (item_size as u64))
    }

    /// Begins a write to region `region_index`: the caller may write all
    /// of its bytes.
    pub fn write_region(&self, region_index: usize) -> (r: RegionAccess)
        requires
            region_index < self@.regions.len(),
        ensures
            r == RegionAccess::begin_write(
                self@.regions[region_index as int],
                self@.regions[region_index as int].size(),
            ),
    {
        let region = &self.regions[region_index];
        RegionAccess::write(region, region.size())
    }

    /// Begins a read of region `region_index` through a view of items of
    /// `item_size` bytes: the caller may read the whole items that lie in
    /// the region.
    pub fn read_region_with_slice(&self, region_index: usize, item_size: usize) -> (r:
        RegionAccess)
        requires
            region_index < self@.regions.len(),
            item_size > 0,
        ensures
            r == RegionAccess::begin_read(
                self@.regions[region_index as int],
                (self@.regions[region_index as int].size() as int / item_size as int
                    * item_size) as u64,
            ),
    {
        let region = &self.regions[region_index];
        let count = region.slice_len(item_size);
        assert(count * item_size <= u64::MAX);
        RegionAccess::read(region, count * (item_size as u64))
    }

    /// Begins a read of region `region_index`: the caller may read all of
    /// its bytes.
    pub fn read_region(&self, region_index: usize) -> (r: RegionAccess)
        requires
            region_index < self@.regions.len(),
        ensures
            r == RegionAccess::begin_read(
                self@.regions[region_index as int],
                self@.regions[region_index as int].size(),
            ),
    {
        let region = &self.regions[region_index];
        RegionAccess::read(region, region.size())
    }

    /// The pool of the command buffers of the staging buffer.
    pub fn command_pool(&self) -> (r: &CommandPool)
        ensures
            *r == self@.command_pool,
    {
        &self.command_pool
    }

    /// The host-visible buffer.
    pub fn host_buffer_memory(&self) -> (r: &BufferMemory)
        ensures
            *r == self@.host_buffer_memory,
    {
        &self.host_buffer_memory
    }

    /// The device-local buffer.
    pub fn device_buffer_memory(&self) -> (r: &BufferMemory)
        ensures
            *r == self@.device_buffer_memory,
    {
        &self.device_buffer_memory
    }

    /// The size of each of the two buffers in bytes.
    pub fn buffer_size(&self) -> (r: VkDeviceSize)
        ensures
            r == self@.buffer_size,
    {
        self.buffer_size
    }

    /// The address at which the host-visible buffer is mapped.
    pub fn mapped(&self) -> (r: usize)
        ensures
            r == self@.mapped,
    {
        self.mapped
    }

    /// Region `index`, if there is one.
    pub fn nth_region(&self, index: usize) -> (r: Option<&StagingBufferRegion>)
        ensures
            match r {
                Some(region) => index < self@.regions.len() && *region
                    == self@.regions[index as int],
                None => index >= self@.regions.len(),
            },
    {
        if index < self.regions.len() {
            Some(&self.regions[index])
        } else {
            None
        }
    }

    /// The regions, in order. They are laid end to end from offset 0 and
    /// fill the buffers exactly.
    pub fn regions(&self) -> (r: &Vec<StagingBufferRegion>)
        ensures
            r@ == self@.regions,
            self@.wf(),
    {
        proof {
            use_type_invariant(self);
        }
        &self.regions
    }

    /// The calls that give the staging buffer back.
    pub fn to_release(&self) -> (calls: Vec<Call>)
        ensures
            calls@ == self@.release_calls(),
    {
        let mut calls: Vec<Call> = Vec::new();
        let mut host = self.host_buffer_memory;
        let mut device = self.device_buffer_memory;
        if !(host.buffer().is_null() && host.memory().is_null()) {
            calls.push(
                Call::UnmapMemory {
                    device: self.command_pool.device().handle(),
                    memory: host.memory(),
                },
            );
            let ghost first = calls@;
            let mut i: usize = 0;
            while i < self.regions.len()
                invariant
                    i <= self.regions@.len(),
                    calls@ == first + regions_release(self.regions@.take(i as int)),
                decreases self.regions@.len() - i,
            {
                let mut region = self.regions[i];
                let mut more = region.release();
                calls.append(&mut more);
                proof {
                    assert(self.regions@.take(i + 1).drop_last() =~= self.regions@.take(i as int));
                    assert(calls@ =~= first + regions_release(self.regions@.take(i + 1)));
                }
                i += 1;
            }
            assert(self.regions@.take(self.regions@.len() as int) =~= self.regions@);
            let mut more = host.release();
            calls.append(&mut more);
            let mut more = device.release();
            calls.append(&mut more);
            assert(calls@ =~= self@.release_calls());
        }
        calls
    }

    /// Releases the staging buffer: says which calls give it back, and
    /// forgets its regions, its size and its handles.
    pub fn release(&mut self) -> (calls: Vec<Call>)
        ensures
            calls@ == old(self)@.release_calls(),
            final(self)@.released(),
            final(self)@.regions.len() == 0,
            final(self)@.buffer_size == 0,
            final(self)@.device_buffer_memory.buffer.address == 0,
            final(self)@.device_buffer_memory.memory.address == 0,
            final(self)@.command_pool == old(self)@.command_pool,
    {
        let calls = self.to_release();
        let host = BufferMemory {
            buffer: VkBuffer::null(),
            memory: VkDeviceMemory::null(),
            device: self.host_buffer_memory.device,
            whole_size: 0,
        };
        let device = BufferMemory {
            buffer: VkBuffer::null(),
            memory: VkDeviceMemory::null(),
            device: self.device_buffer_memory.device,
            whole_size: 0,
        };
        *self = StagingBuffer {
            buffer_size: 0,
            regions: Vec::new(),
            host_buffer_memory: host,
            device_buffer_memory: device,
            command_pool: self.command_pool,
            mapped: 0,
        };
        calls
    }
}

/// What the making of a staging buffer is doing.
#[derive(Debug, Clone, Copy, PartialEq, Eq)]
pub enum StagingStep {
    /// The host-visible buffer is being made.
    Host(BufferMemorySetup),
    /// The device-local buffer is being made.
    Device(BufferMemorySetup),
    /// The host-visible buffer is being mapped.
    Mapping,
    /// The mapping failed with this status.
    MappingFailed(VkResult),
    /// The next region is being made.
    Region(StagingBufferRegionSetup),
    /// The staging buffer is made.
    Ready,
}

/// The making of a [`StagingBuffer`].
#[derive(Debug)]
pub struct StagingBufferSetup {
    command_pool: CommandPool,
    sizes: Vec<usize>,
    buffer_size: VkDeviceSize,
    host: Option<BufferMemory>,
    device: Option<BufferMemory>,
    mapped: usize,
    regions: Vec<StagingBufferRegion>,
    step: StagingStep,
}

/// What the making of a staging buffer holds.
pub struct StagingBufferSetupView {
    pub command_pool: CommandPool,
    /// The sizes of the regions to make.
    pub sizes: Seq<usize>,
    /// The sum of the sizes.
    pub buffer_size: VkDeviceSize,
    /// The host-visible buffer, once it is made.
    pub host: Option<BufferMemory>,
    /// The device-local buffer, once it is made.
    pub device: Option<BufferMemory>,
    /// The address of the mapping, once there is one.
    pub mapped: usize,
    /// The regions made so far.
    pub regions: Seq<StagingBufferRegion>,
    pub step: StagingStep,
}

impl StagingBufferSetupView {
    /// The making of a staging buffer with regions of the sizes `sizes`,
    /// of which nothing has happened yet: it begins with the host-visible
    /// buffer, which is as large as all regions together.
    pub open spec fn begin(command_pool: CommandPool, sizes: Seq<usize>) -> Self {
        let buffer_size = total(sizes_of(sizes)) as u64;
        StagingBufferSetupView {
            command_pool,
            sizes,
            buffer_size,
            host: None,
            device: None,
            mapped: 0,
            regions: Seq::empty(),
            step: StagingStep::Host(
                BufferMemorySetup::begin(
                    command_pool.device,
                    HOST_BUFFER_USAGE,
                    HOST_MEMORY_PROPERTIES,
                    buffer_size,
                ),
            ),
        }
    }

    /// The shape of the reply that is waited for; none once the making has
    /// ended.
    pub open spec fn awaits(self) -> Option<ReplyKind> {
        match self.step {
            StagingStep::Host(setup) => setup.awaits(),
            StagingStep::Device(setup) => setup.awaits(),
            StagingStep::Mapping => Some(ReplyKind::Handle),
            StagingStep::Region(setup) => setup.awaits(),
            _ => None,
        }
    }

    /// What is to do once `made` regions are made: the making of the next
    /// region, which begins where the last one ends, or nothing more.
    pub open spec fn step_after(self, made: int, mapped: usize) -> StagingStep {
        if made >= self.sizes.len() {
            StagingStep::Ready
        } else {
            StagingStep::Region(
                StagingBufferRegionSetup::begin(
                    offset(sizes_of(self.sizes), made) as u64,
                    self.sizes[made] as u64,
                    self.command_pool,
                    self.host.unwrap(),
                    self.device.unwrap(),
                    mapped,
                ),
            )
        }
    }

    /// The making after the answer `reply` to the pending call.
    ///
    /// The host-visible buffer is made first, then the device-local buffer
    /// of the same size; the host-visible memory is mapped whole; then the
    /// regions are made in order. A step that fails ends the making.
    pub open spec fn replied(self, reply: Reply) -> Self {
        match self.step {
            StagingStep::Host(setup) => {
                let next = setup.replied(reply);
                if next.state is Ready {
                    StagingBufferSetupView {
                        host: Some(next.made()),
                        step: StagingStep::Device(
                            BufferMemorySetup::begin(
                                self.command_pool.device,
                                DEVICE_BUFFER_USAGE,
                                DEVICE_MEMORY_PROPERTIES,
                                self.buffer_size,
                            ),
                        ),
                        ..self
                    }
                } else {
                    StagingBufferSetupView { step: StagingStep::Host(next), ..self }
                }
            },
            StagingStep::Device(setup) => {
                let next = setup.replied(reply);
                if next.state is Ready {
                    StagingBufferSetupView {
                        device: Some(next.made()),
                        step: StagingStep::Mapping,
                        ..self
                    }
                } else {
                    StagingBufferSetupView { step: StagingStep::Device(next), ..self }
                }
            },
            StagingStep::Mapping => match reply {
                Reply::Handle(VkResult::VK_SUCCESS, address) => StagingBufferSetupView {
                    mapped: address,
                    step: self.step_after(0, address),
                    ..self
                },
                _ => StagingBufferSetupView {
                    step: StagingStep::MappingFailed(reply.status()),
                    ..self
                },
            },
            StagingStep::Region(setup) => {
                let next = setup.replied(reply);
                if next.stage is Ready {
                    StagingBufferSetupView {
                        regions: self.regions.push(next.region),
                        step: self.step_after(self.regions.len() + 1 as int, self.mapped),
                        ..self
                    }
                } else {
                    StagingBufferSetupView { step: StagingStep::Region(next), ..self }
                }
            },
            _ => self,
        }
    }

    /// The call that maps the whole host-visible memory.
    pub open spec fn map_call(self) -> Call {
        Call::MapMemory {
            device: self.command_pool.device.handle(),
            memory: self.host.unwrap().memory,
            offset: 0,
            size: self.buffer_size,
            flags: 0,
        }
    }

    /// Whether `c` is the call to make now: the pending call of the step
    /// that is being taken.
    pub open spec fn calls(self, c: Option<Call>) -> bool {
        match self.step {
            StagingStep::Host(setup) => c == setup.pending(),
            StagingStep::Device(setup) => c == setup.pending(),
            StagingStep::Mapping => c == Some(self.map_call()),
            StagingStep::Region(setup) => setup.calls(c),
            _ => c.is_none(),
        }
    }

    /// The invariant of the making.
    pub open spec fn wf(self) -> bool {
        let sizes = sizes_of(self.sizes);
        &&& total(sizes) == self.buffer_size
        &&& match self.step {
            StagingStep::Host(setup) => {
                &&& setup.device == self.command_pool.device
                &&& setup.usage == HOST_BUFFER_USAGE
                &&& setup.memory_property_flags == HOST_MEMORY_PROPERTIES
                &&& setup.size == self.buffer_size
                &&& !(setup.state is Ready)
                &&& self.host.is_none()
                &&& self.device.is_none()
                &&& self.regions.len() == 0
            },
            StagingStep::Device(setup) => {
                &&& setup.device == self.command_pool.device
                &&& setup.usage == DEVICE_BUFFER_USAGE
                &&& setup.memory_property_flags == DEVICE_MEMORY_PROPERTIES
                &&& setup.size == self.buffer_size
                &&& !(setup.state is Ready)
                &&& self.host.is_some()
                &&& self.device.is_none()
                &&& self.regions.len() == 0
            },
            StagingStep::Mapping | StagingStep::MappingFailed(_) => {
                &&& self.host.is_some()
                &&& self.device.is_some()
                &&& self.regions.len() == 0
            },
            StagingStep::Region(setup) => {
                let made = self.regions.len() as int;
                &&& self.host.is_some()
                &&& self.device.is_some()
                &&& made < self.sizes.len()
                &&& setup.region.copy_region == (VkBufferCopy {
                    srcOffset: offset(sizes, made) as u64,
                    dstOffset: offset(sizes, made) as u64,
                    size: sizes[made] as u64,
                })
                &&& setup.region.command_pool == self.command_pool
                &&& setup.region.host_buffer_memory == self.host.unwrap()
                &&& setup.region.device_buffer_memory == self.device.unwrap()
                &&& setup.region.mapped == self.mapped
                &&& !(setup.stage is Ready)
            },
            StagingStep::Ready => {
                &&& self.host.is_some()
                &&& self.device.is_some()
                &&& self.regions.len() == self.sizes.len()
            },
        }
        &&& self.host matches Some(host) ==> host.whole_size == self.buffer_size
        &&& self.device matches Some(device) ==> device.whole_size == self.buffer_size
        &&& self.regions.len() > 0 ==> laid_out(
            self.regions,
            sizes,
            self.command_pool,
            self.host.unwrap(),
            self.device.unwrap(),
            self.mapped,
        )
    }

    /// Whether the making has ended well: whether everything is made, and
    /// the driver gave two buffers, not one handle twice.
    pub open spec fn ended_well(self) -> bool {
        self.step is Ready && self.host.unwrap().buffer != self.device.unwrap().buffer
    }

    /// The staging buffer that has been made; meaningful once the making
    /// has ended well.
    pub open spec fn made(self) -> StagingBufferView {
        StagingBufferView {
            buffer_size: self.buffer_size,
            regions: self.regions,
            host_buffer_memory: self.host.unwrap(),
            device_buffer_memory: self.device.unwrap(),
            command_pool: self.command_pool,
            mapped: self.mapped,
        }
    }

    /// Why the making failed; meaningful once it has. A making that ends
    /// with one handle for both buffers fails as an initialization that
    /// the driver could not complete.
    pub open spec fn failure(self) -> ErrorCode {
        match self.step {
            StagingStep::Host(setup) => setup.state->Failed_0.code(),
            StagingStep::Device(setup) => setup.state->Failed_0.code(),
            StagingStep::MappingFailed(status) => ErrorCode::VkResult(status),
            StagingStep::Region(setup) => ErrorCode::VkResult(setup.stage->Failed_0),
            // One handle for both buffers: the driver has not made two.
            _ => ErrorCode::VkResult(VkResult::VK_ERROR_INITIALIZATION_FAILED),
        }
    }

    /// The calls that give back what a making that did not end well has
    /// acquired, the later acquired first: what the failed step had
    /// acquired; the regions, the last one first; the mapping; the
    /// device-local buffer; the host-visible buffer.
    pub open spec fn unwind_calls(self) -> Seq<Call> {
        let step = match self.step {
            StagingStep::Host(setup) => setup.unwind_calls(),
            StagingStep::Device(setup) => setup.unwind_calls(),
            StagingStep::Region(setup) => setup.unwind_calls(),
            _ => seq![],
        };
        let mapping = if self.step is Region || self.step is Ready {
            seq![
                Call::UnmapMemory {
                    device: self.command_pool.device.handle(),
                    memory: self.host.unwrap().memory,
                },
            ]
        } else {
            seq![]
        };
        let device = match self.device {
            Some(device) => device.unwind_calls(),
            None => seq![],
        };
        let host = match self.host {
            Some(host) => host.unwind_calls(),
            None => seq![],
        };
        if self.ended_well() {
            seq![]
        } else {
            step + regions_unwind(self.regions) + mapping + device + host
        }
    }
}

impl View for StagingBufferSetup {
    type V = StagingBufferSetupView;

    closed spec fn view(&self) -> StagingBufferSetupView {
        StagingBufferSetupView {
            command_pool: self.command_pool,
            sizes: self.sizes@,
            buffer_size: self.buffer_size,
            host: self.host,
            device: self.device,
            mapped: self.mapped,
            regions: self.regions@,
            step: self.step,
        }
    }
}

impl StagingBufferSetup {
    #[verifier::type_invariant]
    spec fn inv(self) -> bool {
        self@.wf()
    }

    /// The call to make now.
    pub fn call(&self) -> (c: Option<Call>)
        ensures
            self@.calls(c),
    {
        proof {
            use_type_invariant(self);
        }
        match &self.step {
            StagingStep::Host(setup) => setup.call(),
            StagingStep::Device(setup) => setup.call(),
            StagingStep::Mapping => {
                match &self.host {
                    Some(host) => Some(
                        Call::MapMemory {
                            device: self.command_pool.device().handle(),
                            memory: host.memory(),
                            offset: 0,
                            size: self.buffer_size,
                            flags: 0,
                        },
                    ),
                    None => None,
                }
            },
            StagingStep::Region(setup) => setup.call(),
            _ => None,
        }
    }

    /// The step to take once the regions made so far are all that there
    /// are, or the making of the next region.
    fn next_step(
        command_pool: &CommandPool,
        sizes: &Vec<usize>,
        host: &BufferMemory,
        device: &BufferMemory,
        mapped: usize,
        regions: &Vec<StagingBufferRegion>,
    ) -> (step: StagingStep)
        requires
            total(sizes_of(sizes@)) <= u64::MAX,
            regions@.len() <= sizes@.len(),
            regions@.len() > 0 ==> laid_out(
                regions@,
                sizes_of(sizes@),
                *command_pool,
                *host,
                *device,
                mapped,
            ),
        ensures
            step == if regions@.len() >= sizes@.len() {
                StagingStep::Ready
            } else {
                StagingStep::Region(
                    StagingBufferRegionSetup::begin(
                        offset(sizes_of(sizes@), regions@.len() as int) as u64,
                        sizes@[regions@.len() as int] as u64,
                        *command_pool,
                        *host,
                        *device,
                        mapped,
                    ),
                )
            },
            regions@.len() < sizes@.len() ==> offset(sizes_of(sizes@), regions@.len() as int)
                + sizes@[regions@.len() as int] <= u64::MAX,
    {
        let made = regions.len();
        if made >= sizes.len() {
            StagingStep::Ready
        } else {
            let ghost all = sizes_of(sizes@);
            proof {
                lemma_offset_step(all, made as int);
                lemma_part_within(all, made as int);
                if made > 0 {
                    lemma_offset_step(all, made - 1);
                    lemma_part_within(all, made - 1);
                }
            }
            let at: u64 = if made == 0 {
                0
            } else {
                let last = &regions[made - 1];
                last.offset() + last.size()
            };
            StagingStep::Region(
                StagingBufferRegion::new(
                    at,
                    sizes[made] as u64,
                    command_pool,
                    host,
                    device,
                    mapped,
                ),
            )
        }
    }

    /// Takes the answer to the pending call.
    pub fn reply(self, reply: Reply) -> (next: Self)
        requires
            self@.awaits() == Some(reply.kind()),
        ensures
            next@ == self@.replied(reply),
    {
        proof {
            use_type_invariant(&self);
        }
        let ghost before = self@;
        let StagingBufferSetup {
            command_pool,
            sizes,
            buffer_size,
            host,
            device,
            mapped,
            regions,
            step,
        } = self;
        match step {
            StagingStep::Host(setup) => {
                let next = setup.reply(reply);
                match next.state {
                    BufferMemoryState::Ready(_, _) => {
                        let made = BufferMemory {
                            buffer: next.state.buffer(),
                            memory: next.state.memory(),
                            device: next.device,
                            whole_size: next.size,
                        };
                        StagingBufferSetup {
                            command_pool,
                            sizes,
                            buffer_size,
                            host: Some(made),
                            device,
                            mapped,
                            regions,
                            step: StagingStep::Device(
                                BufferMemory::new(
                                    command_pool.device(),
                                    DEVICE_BUFFER_USAGE,
                                    DEVICE_MEMORY_PROPERTIES,
                                    buffer_size,
                                ),
                            ),
                        }
                    },
                    _ => StagingBufferSetup {
                        command_pool,
                        sizes,
                        buffer_size,
                        host,
                        device,
                        mapped,
                        regions,
                        step: StagingStep::Host(next),
                    },
                }
            },
            StagingStep::Device(setup) => {
                let next = setup.reply(reply);
                match next.state {
                    BufferMemoryState::Ready(_, _) => {
                        let made = BufferMemory {
                            buffer: next.state.buffer(),
                            memory: next.state.memory(),
                            device: next.device,
                            whole_size: next.size,
                        };
                        StagingBufferSetup {
                            command_pool,
                            sizes,
                            buffer_size,
                            host,
                            device: Some(made),
                            mapped,
                            regions,
                            step: StagingStep::Mapping,
                        }
                    },
                    _ => StagingBufferSetup {
                        command_pool,
                        sizes,
                        buffer_size,
                        host,
                        device,
                        mapped,
                        regions,
                        step: StagingStep::Device(next),
                    },
                }
            },
            StagingStep::Mapping => {
                match (reply, &host, &device) {
                    (Reply::Handle(VkResult::VK_SUCCESS, address), Some(h), Some(d)) => {
                        let step = Self::next_step(&command_pool, &sizes, h, d, address, &regions);
                        StagingBufferSetup {
                            command_pool,
                            sizes,
                            buffer_size,
                            host,
                            device,
                            mapped: address,
                            regions,
                            step,
                        }
                    },
                    (reply, _, _) => StagingBufferSetup {
                        command_pool,
                        sizes,
                        buffer_size,
                        host,
                        device,
                        mapped,
                        regions,
                        step: StagingStep::MappingFailed(reply.status()),
                    },
                }
            },
            StagingStep::Region(setup) => {
                let next = setup.reply(reply);
                match (next.stage, &host, &device) {
                    (RegionStage::Ready, Some(h), Some(d)) => {
                        let mut regions = regions;
                        regions.push(next.region);
                        proof {
                            let all = sizes_of(sizes@);
                            assert forall|i: int| 0 <= i < regions@.len() implies {
                                &&& (#[trigger] regions@[i]).copy_region.srcOffset == offset(all, i)
                                &&& regions@[i].copy_region.dstOffset == offset(all, i)
                                &&& regions@[i].copy_region.size == all[i]
                                &&& regions@[i].command_pool == command_pool
                                &&& regions@[i].host_buffer_memory == *h
                                &&& regions@[i].device_buffer_memory == *d
                                &&& regions@[i].mapped == mapped
                            } by {
                                lemma_part_within(all, i);
                                if i < regions@.len() - 1 {
                                    assert(regions@[i] == before.regions[i]);
                                }
                            }
                        }
                        let step = Self::next_step(&command_pool, &sizes, h, d, mapped, &regions);
                        StagingBufferSetup {
                            command_pool,
                            sizes,
                            buffer_size,
                            host,
                            device,
                            mapped,
                            regions,
                            step,
                        }
                    },
                    _ => StagingBufferSetup {
                        command_pool,
                        sizes,
                        buffer_size,
                        host,
                        device,
                        mapped,
                        regions,
                        step: StagingStep::Region(next),
                    },
                }
            },
            step => StagingBufferSetup {
                command_pool,
                sizes,
                buffer_size,
                host,
                device,
                mapped,
                regions,
                step,
            },
        }
    }

    /// The calls that give back what a making that did not end well has
    /// acquired, the later acquired first.
    pub fn unwind(&self) -> (calls: Vec<Call>)
        ensures
            calls@ == self@.unwind_calls(),
    {
        proof {
            use_type_invariant(self);
        }
        let mut calls: Vec<Call> = match &self.step {
            StagingStep::Host(setup) => setup.unwind(),
            StagingStep::Device(setup) => setup.unwind(),
            StagingStep::Region(setup) => setup.unwind(),
            StagingStep::Ready => {
                if self.distinct_buffers() {
                    return Vec::new();
                }
                Vec::new()
            },
            _ => Vec::new(),
        };
        let ghost step = calls@;
        let mut i: usize = self.regions.len();
        assert(self.regions@.take(self.regions@.len() as int) =~= self.regions@);
        while i > 0
            invariant
                i <= self.regions@.len(),
                calls@ + regions_unwind(self.regions@.take(i as int)) == step + regions_unwind(
                    self.regions@,
                ),
            decreases i,
        {
            let ghost old_calls = calls@;
            let mut more = self.regions[i - 1].unwind();
            calls.append(&mut more);
            proof {
                let upto = self.regions@.take(i as int);
                assert(upto.drop_last() =~= self.regions@.take(i - 1));
                assert(upto.last() == self.regions@[i - 1]);
                assert(calls@ + regions_unwind(self.regions@.take(i - 1)) =~= old_calls
                    + regions_unwind(upto));
            }
            i -= 1;
        }
        proof {
            assert(self.regions@.take(0) =~= Seq::<StagingBufferRegion>::empty());
            assert(calls@ =~= step + regions_unwind(self.regions@));
            assert(self.regions@.take(self.regions@.len() as int) =~= self.regions@);
        }
        match (&self.step, &self.host) {
            (StagingStep::Region(_), Some(host)) | (StagingStep::Ready, Some(host)) => {
                calls.push(
                    Call::UnmapMemory {
                        device: self.command_pool.device().handle(),
                        memory: host.memory(),
                    },
                );
            },
            _ => {},
        }
        match &self.device {
            Some(device) => {
                let mut more = device.unwind();
                calls.append(&mut more);
            },
            None => {},
        }
        match &self.host {
            Some(host) => {
                let mut more = host.unwind();
                calls.append(&mut more);
            },
            None => {},
        }
        assert(calls@ =~= self@.unwind_calls());
        calls
    }

    /// Whether the two buffers, as far as they are made, have different
    /// handles.
    fn distinct_buffers(&self) -> (r: bool)
        ensures
            r == match (self@.host, self@.device) {
                (Some(host), Some(device)) => host.buffer != device.buffer,
                _ => true,
            },
    {
        match (&self.host, &self.device) {
            (Some(host), Some(device)) => host.buffer().address() != device.buffer().address(),
            _ => true,
        }
    }

    /// The staging buffer, once the making has ended, or why there is
    /// none. The staging buffer that is given meets its invariant, and its
    /// two buffers are two.
    pub fn finish(self) -> (r: Result<StagingBuffer, Error>)
        requires
            self@.awaits().is_none(),
        ensures
            self@.wf(),
            match r {
                Ok(made) => self@.ended_well() && made@ == self@.made() && made@.wf()
                    && made@.distinct(),
                Err(error) => !self@.ended_well() && error.spec_code() == self@.failure(),
            },
    {
        proof {
            use_type_invariant(&self);
        }
        let distinct = self.distinct_buffers();
        match (self.step, self.host, self.device) {
            (StagingStep::Ready, Some(_), Some(_)) if !distinct => Err(
                Error::new(ErrorCode::VkResult(VkResult::VK_ERROR_INITIALIZATION_FAILED)),
            ),
            (StagingStep::Ready, Some(host), Some(device)) => {
                proof {
                    let all = sizes_of(self.sizes@);
                    assert(region_sizes(self.regions@) =~= all);
                }
                Ok(
                    StagingBuffer {
                        buffer_size: self.buffer_size,
                        regions: self.regions,
                        host_buffer_memory: host,
                        device_buffer_memory: device,
                        command_pool: self.command_pool,
                        mapped: self.mapped,
                    },
                )
            },
            (StagingStep::Host(setup), _, _) => match setup.finish() {
                Ok(_) => Err(Error::new(ErrorCode::SuitableBufferMemoryTypeNotFound)),
                Err(error) => Err(error),
            },
            (StagingStep::Device(setup), _, _) => match setup.finish() {
                Ok(_) => Err(Error::new(ErrorCode::SuitableBufferMemoryTypeNotFound)),
                Err(error) => Err(error),
            },
            (StagingStep::Region(setup), _, _) => match setup.finish() {
                Ok(_) => Err(Error::new(ErrorCode::SuitableBufferMemoryTypeNotFound)),
                Err(error) => Err(error),
            },
            (StagingStep::MappingFailed(status), _, _) => Err(
                Error::new(ErrorCode::VkResult(status)),
            ),
            _ => Err(Error::new(ErrorCode::VkResult(VkResult::VK_NOT_READY))),
        }
    }
}

} // verus!
