//! Typed layouts of a buffer, and typed views of the buffer and of its
//! bindings.

use vstd::prelude::*;
use vstd::layout::size_of;
use core::marker::PhantomData;
use std::sync::Arc;
use crate::buffer::{Buffer, BufferSetup};
use crate::context::Context;
use crate::dispatch::{sizes_of, RegionAccess, StagingBufferSetupView};
use crate::driver::{Call, Reply};
use crate::error::Error;
use crate::layout::total;
use crate::shared::share;

verus! {

/// One of the four places of a layout: taken by a binding, or left empty.
pub trait Slot {
    /// Whether the place is taken by a binding.
    spec fn taken() -> bool;
}

impl Slot for () {
    open spec fn taken() -> bool {
        false
    }
}

impl<T> Slot for BindingVariant<T> {
    open spec fn taken() -> bool {
        true
    }
}

/// A layout whose type says how many bindings it has at the least.
pub trait Layout {
    /// The number of bindings that every layout of this type has at the
    /// least: the number of its places up to the last one that is taken.
    spec fn bindings() -> nat;
}

impl<T0: Slot, T1: Slot, T2: Slot, T3: Slot> Layout for BufferLayout<T0, T1, T2, T3> {
    open spec fn bindings() -> nat {
        if T3::taken() {
            4
        } else if T2::taken() {
            3
        } else if T1::taken() {
            2
        } else if T0::taken() {
            1
        } else {
            0
        }
    }
}

/// The layout of a buffer: the bindings, of up to four types, and the
/// size of each in bytes.
#[derive(Debug)]
pub struct BufferLayout<T0: Slot, T1: Slot = (), T2: Slot = (), T3: Slot = ()> {
    bindings: (T0, T1, T2, T3),
    size: usize,
    entries: Vec<usize>,
}

impl<T0: Slot, T1: Slot, T2: Slot, T3: Slot> BufferLayout<T0, T1, T2, T3> {
    #[verifier::type_invariant]
    spec fn inv(self) -> bool {
        self.size == total(sizes_of(self.entries@)) && self.entries@.len() >= Self::bindings()
    }

    /// The sizes of the bindings in bytes, in order.
    pub closed spec fn spec_entries(&self) -> Seq<usize> {
        self.entries@
    }

    /// The sizes of the bindings in bytes, in order: one for each binding
    /// that the type of the layout names, at the least.
    pub fn entries(&self) -> (r: &Vec<usize>)
        ensures
            r@ == self.spec_entries(),
            r@.len() >= Self::bindings(),
    {
        proof {
            use_type_invariant(self);
        }
        &self.entries
    }

    /// The size of all bindings together in bytes.
    pub fn size(&self) -> (r: usize)
        ensures
            r == total(sizes_of(self.spec_entries())),
    {
        proof {
            use_type_invariant(self);
        }
        self.size
    }
}

impl BufferLayout<()> {
    /// The layout with bindings of the sizes `entries`, of no stated type.
    pub fn new(entries: Vec<usize>) -> (r: BufferLayout<()>)
        requires
            total(sizes_of(entries@)) <= usize::MAX,
        ensures
            r.spec_entries() == entries@,
    {
        let ghost sizes = sizes_of(entries@);
        let mut size: usize = 0;
        let mut i: usize = 0;
        while i < entries.len()
            invariant
                i <= entries@.len(),
                sizes == sizes_of(entries@),
                total(sizes) <= usize::MAX,
                size == crate::layout::offset(sizes, i as int),
            decreases entries@.len() - i,
        {
            proof {
                crate::layout::lemma_offset_step(sizes, i as int);
                crate::layout::lemma_part_within(sizes, i as int);
            }
            size = size + entries[i];
            i += 1;
        }
        proof {
            assert(sizes.take(sizes.len() as int) =~= sizes);
        }
        BufferLayout { bindings: ((), (), (), ()), size, entries }
    }
}

/// The sum of the sizes of one to four bindings.
pub open spec fn sum_of(sizes: Seq<usize>) -> nat {
    total(sizes_of(sizes))
}

/// The sum of a few sizes is the sum of the first ones and the last one.
proof fn lemma_sum(sizes: Seq<usize>)
    ensures
        sizes.len() == 1 ==> sum_of(sizes) == sizes[0],
        sizes.len() == 2 ==> sum_of(sizes) == sizes[0] + sizes[1],
        sizes.len() == 3 ==> sum_of(sizes) == sizes[0] + sizes[1] + sizes[2],
        sizes.len() == 4 ==> sum_of(sizes) == sizes[0] + sizes[1] + sizes[2] + sizes[3],
{
    reveal_with_fuel(total, 5);
    let all = sizes_of(sizes);
    if sizes.len() >= 1 {
        assert(all.take(1).drop_last() =~= all.take(0));
        crate::layout::lemma_offset_step(all, 0);
    }
    if sizes.len() >= 2 {
        crate::layout::lemma_offset_step(all, 1);
    }
    if sizes.len() >= 3 {
        crate::layout::lemma_offset_step(all, 2);
    }
    if sizes.len() >= 4 {
        crate::layout::lemma_offset_step(all, 3);
    }
}

impl<T0> BufferLayout<BindingVariant<T0>> {
    /// The layout with one binding.
    pub fn new_0(v0: BindingVariant<T0>) -> (r: Self)
        ensures
            r.spec_entries() == seq![v0.size()],
    {
        let entries = vec![v0.size()];
        proof {
            lemma_sum(entries@);
        }
        BufferLayout { bindings: (v0, (), (), ()), size: entries[0], entries }
    }
}

impl<T0, T1> BufferLayout<BindingVariant<T0>, BindingVariant<T1>> {
    /// The layout with two bindings.
    pub fn new_1(v0: BindingVariant<T0>, v1: BindingVariant<T1>) -> (r: Self)
        requires
            v0.size() + v1.size() <= usize::MAX,
        ensures
            r.spec_entries() == seq![v0.size(), v1.size()],
    {
        let entries = vec![v0.size(), v1.size()];
        proof {
            lemma_sum(entries@);
        }
        let size = entries[0] + entries[1];
        BufferLayout { bindings: (v0, v1, (), ()), size, entries }
    }
}

impl<T0, T1, T2> BufferLayout<BindingVariant<T0>, BindingVariant<T1>, BindingVariant<T2>> {
    /// The layout with three bindings.
    pub fn new_2(v0: BindingVariant<T0>, v1: BindingVariant<T1>, v2: BindingVariant<T2>) -> (r:
        Self)
        requires
            v0.size() + v1.size() + v2.size() <= usize::MAX,
        ensures
            r.spec_entries() == seq![v0.size(), v1.size(), v2.size()],
    {
        let entries = vec![v0.size(), v1.size(), v2.size()];
        proof {
            lemma_sum(entries@);
        }
        let size = entries[0] + entries[1] + entries[2];
        BufferLayout { bindings: (v0, v1, v2, ()), size, entries }
    }
}

impl<T0, T1, T2, T3> BufferLayout<
    BindingVariant<T0>,
    BindingVariant<T1>,
    BindingVariant<T2>,
    BindingVariant<T3>,
> {
    /// The layout with four bindings.
    pub fn new_3(
        v0: BindingVariant<T0>,
        v1: BindingVariant<T1>,
        v2: BindingVariant<T2>,
        v3: BindingVariant<T3>,
    ) -> (r: Self)
        requires
            v0.size() + v1.size() + v2.size() + v3.size() <= usize::MAX,
        ensures
            r.spec_entries() == seq![v0.size(), v1.size(), v2.size(), v3.size()],
    {
        let entries = vec![v0.size(), v1.size(), v2.size(), v3.size()];
        proof {
            lemma_sum(entries@);
        }
        let size = entries[0] + entries[1] + entries[2] + entries[3];
        BufferLayout { bindings: (v0, v1, v2, v3), size, entries }
    }
}

/// A binding that is an array of `count` items of type `T`.
#[derive(Debug)]
pub struct BindingArray<T> {
    data: PhantomData<T>,
    count: usize,
}

impl<T> BindingArray<T> {
    /// The array of `count` items.
    pub fn new(count: usize) -> (r: Self)
        ensures
            r.count() == count,
    {
        BindingArray { data: PhantomData, count }
    }

    pub closed spec fn spec_count(&self) -> usize {
        self.count
    }

    /// The number of items.
    #[verifier::when_used_as_spec(spec_count)]
    pub fn count(&self) -> (r: usize)
        ensures
            r == self.spec_count(),
    {
        self.count
    }
}

/// A binding that is one value of type `T`.
#[derive(Debug)]
pub struct BindingValue<T> {
    data: PhantomData<T>,
}

impl<T> BindingValue<T> {
    /// The binding of one value of type `T`. It holds nothing but the type,
    /// so there is one such binding, and every call gives it.
    #[verifier::when_used_as_spec(spec_new)]
    pub fn new() -> (r: Self)
        ensures
            r == Self::spec_new(),
    {
        BindingValue { data: PhantomData }
    }

    /// The binding of one value of type `T`.
    pub closed spec fn spec_new() -> Self {
        BindingValue { data: PhantomData }
    }
}

/// A binding and its size in bytes.
#[derive(Debug)]
pub struct BindingVariant<T> {
    variant: T,
    size: usize,
}

impl<T> BindingVariant<BindingValue<T>> {
    /// The binding of one value: as large as the value.
    pub fn value(variant: BindingValue<T>) -> (r: Self)
        ensures
            r.size() == size_of::<T>(),
    {
        BindingVariant { variant, size: core::mem::size_of::<T>() }
    }
}

impl<T> BindingVariant<BindingArray<T>> {
    /// The binding of an array: as large as its items together.
    pub fn array(variant: BindingArray<T>) -> (r: Self)
        requires
            size_of::<T>() * variant.count() <= usize::MAX,
        ensures
            r.size() == size_of::<T>() * variant.count(),
    {
        let size = core::mem::size_of::<T>() * variant.count();
        BindingVariant { variant, size }
    }
}

impl<T> BindingVariant<T> {
    pub closed spec fn spec_size(&self) -> usize {
        self.size
    }

    /// The size of the binding in bytes.
    #[verifier::when_used_as_spec(spec_size)]
    pub fn size(&self) -> (r: usize)
        ensures
            r == self.spec_size(),
    {
        self.size
    }
}

/// The choice of the layout of a buffer view. `LayoutType` is `()` until
/// a layout is chosen; only then can the view be built.
#[derive(Debug)]
pub struct BufferViewBuilder<'a, LayoutType> {
    layout: LayoutType,
    context: &'a Arc<Context>,
}

impl<'a> BufferViewBuilder<'a, ()> {
    /// The builder of a view of a buffer in `context`, with no layout yet.
    pub fn new(context: &'a Arc<Context>) -> (r: Self)
        ensures
            r.context() == context,
    {
        BufferViewBuilder { layout: (), context }
    }

    /// Chooses `layout`.
    pub fn layout<LayoutType>(self, layout: LayoutType) -> (r: BufferViewBuilder<'a, LayoutType>)
        ensures
            r.context() == self.context(),
            r.chosen() == layout,
    {
        BufferViewBuilder { layout, context: self.context }
    }

    /// Chooses the layout with one binding, an array of `count` items.
    pub fn bind_array<ItemType>(self, count: usize) -> (r: BufferViewBuilder<
        'a,
        BufferLayout<BindingVariant<BindingArray<ItemType>>>,
    >)
        requires
            size_of::<ItemType>() * count <= usize::MAX,
        ensures
            r.context() == self.context(),
            r.chosen().spec_entries() == seq![(size_of::<ItemType>() * count) as usize],
    {
        let array = BindingArray::<ItemType>::new(count);
        BufferViewBuilder {
            layout: BufferLayout::new_0(BindingVariant::array(array)),
            context: self.context,
        }
    }

    /// Chooses the layout with one binding, a value.
    pub fn bind_value<ValueType>(self) -> (r: BufferViewBuilder<
        'a,
        BufferLayout<BindingVariant<BindingValue<ValueType>>>,
    >)
        ensures
            r.context() == self.context(),
            r.chosen().spec_entries() == seq![size_of::<ValueType>() as usize],
    {
        BufferViewBuilder {
            layout: BufferLayout::new_0(BindingVariant::value(BindingValue::<ValueType>::new())),
            context: self.context,
        }
    }
}

impl<'a, LayoutType> BufferViewBuilder<'a, LayoutType> {
    /// The context of the buffer.
    pub closed spec fn context(&self) -> &Arc<Context> {
        self.context
    }

    /// The layout that has been chosen.
    pub closed spec fn chosen(&self) -> LayoutType {
        self.layout
    }
}

impl<'a, T0: Slot, T1: Slot, T2: Slot, T3: Slot> BufferViewBuilder<
    'a,
    BufferLayout<T0, T1, T2, T3>,
> {
    /// Begins the making of the view: of a buffer whose regions are the
    /// bindings of the layout.
    pub fn build(self) -> (r: BufferViewSetup<BufferLayout<T0, T1, T2, T3>>)
        ensures
            r.setup().context == *self.context(),
            r.setup().setup@ == StagingBufferSetupView::begin(
                self.context().command_pool,
                self.chosen().spec_entries(),
            ),
    {
        BufferView::new(self.layout, self.context)
    }
}

/// The making of a [`BufferView`]: the making of its buffer.
#[derive(Debug)]
pub struct BufferViewSetup<LayoutType: Layout> {
    data: PhantomData<LayoutType>,
    setup: BufferSetup,
}

impl<LayoutType: Layout> BufferViewSetup<LayoutType> {
    #[verifier::type_invariant]
    spec fn inv(self) -> bool {
        self.setup.setup@.sizes.len() >= LayoutType::bindings()
    }

    /// The making of the buffer.
    pub closed spec fn setup(&self) -> BufferSetup {
        self.setup
    }

    /// The call to make now: that of the making of the buffer.
    pub fn call(&self) -> (c: Option<Call>)
        ensures
            self.setup().setup@.calls(c),
    {
        self.setup.call()
    }

    /// Takes the answer to the pending call.
    pub fn reply(self, reply: Reply) -> (next: Self)
        requires
            self.setup().setup@.awaits() == Some(reply.kind()),
        ensures
            next.setup().context == self.setup().context,
            next.setup().setup@ == self.setup().setup@.replied(reply),
    {
        proof {
            use_type_invariant(&self);
        }
        BufferViewSetup { data: PhantomData, setup: self.setup.reply(reply) }
    }

    /// The calls that give back what a making that did not end well has
    /// acquired, the later acquired first.
    pub fn unwind(&self) -> (calls: Vec<Call>)
        ensures
            calls@ == self.setup().setup@.unwind_calls(),
    {
        self.setup.unwind()
    }

    /// The view, once the making has ended, or why there is none. The
    /// buffer of the view has a region for each binding that the type of
    /// the layout names.
    pub fn finish(self) -> (r: Result<BufferView<LayoutType>, Error>)
        requires
            self.setup().setup@.awaits().is_none(),
        ensures
            match r {
                Ok(made) => {
                    &&& self.setup().setup@.ended_well()
                    &&& made.buffer().staging_buffer()@ == self.setup().setup@.made()
                    &&& made.buffer().staging_buffer()@.wf()
                    &&& made.buffer().staging_buffer()@.distinct()
                    &&& made.buffer().staging_buffer()@.regions.len() >= LayoutType::bindings()
                    &&& *made.buffer().context() == self.setup().context
                },
                Err(error) => !self.setup().setup@.ended_well() && error.spec_code()
                    == self.setup().setup@.failure(),
            },
    {
        proof {
            use_type_invariant(&self);
        }
        match self.setup.finish() {
            Ok(buffer) => Ok(BufferView { data: PhantomData, buffer: Arc::new(buffer) }),
            Err(error) => Err(error),
        }
    }
}

/// A buffer seen through a layout. It has a region for each binding that
/// the type of the layout names.
#[derive(Debug)]
pub struct BufferView<LayoutType: Layout> {
    data: PhantomData<LayoutType>,
    buffer: Arc<Buffer>,
}

impl<LayoutType: Layout> BufferView<LayoutType> {
    #[verifier::type_invariant]
    spec fn inv(self) -> bool {
        self.buffer.staging_buffer()@.regions.len() >= LayoutType::bindings()
    }

    pub closed spec fn spec_buffer(&self) -> &Arc<Buffer> {
        &self.buffer
    }

    /// The buffer behind the view, without its layout.
    #[verifier::when_used_as_spec(spec_buffer)]
    pub fn buffer(&self) -> (r: &Arc<Buffer>)
        ensures
            r == self.spec_buffer(),
            r.staging_buffer()@.regions.len() >= LayoutType::bindings(),
    {
        proof {
            use_type_invariant(self);
        }
        &self.buffer
    }

    /// The untyped view of binding `index`, if there is such a binding.
    pub fn nth_binding(&self, index: usize) -> (r: Option<BufferBindingView>)
        ensures
            match r {
                Some(binding) => index < self.buffer().staging_buffer()@.regions.len()
                    && binding.region_index() == index && binding.buffer() == self.buffer(),
                None => index >= self.buffer().staging_buffer()@.regions.len(),
            },
    {
        if index < self.buffer.region_count() {
            Some(BufferBindingView::new(index, &self.buffer))
        } else {
            None
        }
    }

    /// The view of binding `index`, which the type of the layout names, as
    /// a binding of kind `VariantType`.
    fn typed_binding<VariantType>(&self, index: usize) -> (r: BufferBindingView<VariantType>)
        requires
            index < LayoutType::bindings(),
        ensures
            r.region_index() == index,
            r.buffer() == self.buffer(),
    {
        proof {
            use_type_invariant(self);
        }
        BufferBindingView::new(index, &self.buffer)
    }
}

impl<T0: Slot, T1: Slot, T2: Slot, T3: Slot> BufferView<BufferLayout<T0, T1, T2, T3>> {
    /// Begins the making of the view of a buffer in `context` whose
    /// regions are the bindings of `layout`.
    pub fn new(layout: BufferLayout<T0, T1, T2, T3>, context: &Arc<Context>) -> (r:
        BufferViewSetup<BufferLayout<T0, T1, T2, T3>>)
        ensures
            r.setup().context == *context,
            r.setup().setup@ == StagingBufferSetupView::begin(
                context.command_pool,
                layout.spec_entries(),
            ),
    {
        proof {
            use_type_invariant(&layout);
        }
        let BufferLayout { bindings: _, size: _, entries } = layout;
        BufferViewSetup { data: PhantomData, setup: Buffer::new(context, entries) }
    }
}

impl<T0> BufferView<BufferLayout<BindingVariant<T0>>> {
    /// The view of the only binding.
    pub fn binding(&self) -> (r: BufferBindingView<T0>)
        ensures
            r.region_index() == 0,
            r.buffer() == self.buffer(),
    {
        self.typed_binding(0)
    }
}

impl<T0, T1: Slot, T2: Slot, T3: Slot> BufferView<BufferLayout<BindingVariant<T0>, T1, T2, T3>> {
    /// The view of the first binding.
    pub fn first_binding(&self) -> (r: BufferBindingView<T0>)
        ensures
            r.region_index() == 0,
            r.buffer() == self.buffer(),
    {
        self.typed_binding(0)
    }
}

impl<T0: Slot, T1, T2: Slot, T3: Slot> BufferView<BufferLayout<T0, BindingVariant<T1>, T2, T3>> {
    /// The view of the second binding.
    pub fn second_binding(&self) -> (r: BufferBindingView<T1>)
        ensures
            r.region_index() == 1,
            r.buffer() == self.buffer(),
    {
        self.typed_binding(1)
    }
}

impl<T0: Slot, T1, T2, T3: Slot> BufferView<
    BufferLayout<T0, BindingVariant<T1>, BindingVariant<T2>, T3>,
> {
    /// The view of the third binding.
    pub fn third_binding(&self) -> (r: BufferBindingView<T2>)
        ensures
            r.region_index() == 2,
            r.buffer() == self.buffer(),
    {
        self.typed_binding(2)
    }
}

impl<T0: Slot, T1, T2, T3> BufferView<
    BufferLayout<T0, BindingVariant<T1>, BindingVariant<T2>, BindingVariant<T3>>,
> {
    /// The view of the fourth binding.
    pub fn fourth_binding(&self) -> (r: BufferBindingView<T3>)
        ensures
            r.region_index() == 3,
            r.buffer() == self.buffer(),
    {
        self.typed_binding(3)
    }
}

/// The bytes of the items of `item_size` bytes that lie whole in `size`
/// bytes; none for items without size.
pub open spec fn whole_items(size: int, item_size: int) -> int {
    if item_size == 0 {
        0
    } else {
        size / item_size * item_size
    }
}

/// One binding of a buffer, seen as a binding of kind `VariantType`.
#[derive(Debug)]
pub struct BufferBindingView<VariantType = ()> {
    data: PhantomData<VariantType>,
    region_index: usize,
    buffer: Arc<Buffer>,
}

impl<VariantType> BufferBindingView<VariantType> {
    #[verifier::type_invariant]
    spec fn inv(self) -> bool {
        self.region_index < self.buffer.staging_buffer()@.regions.len()
    }

    /// The view of binding `region_index` of `buffer`.
    pub fn new(region_index: usize, buffer: &Arc<Buffer>) -> (r: Self)
        requires
            region_index < buffer.staging_buffer()@.regions.len(),
        ensures
            r.region_index() == region_index,
            r.buffer() == buffer,
    {
        BufferBindingView { data: PhantomData, region_index, buffer: share(buffer) }
    }

    /// The number of the binding.
    pub closed spec fn region_index(&self) -> usize {
        self.region_index
    }

    /// The buffer of the binding.
    pub closed spec fn buffer(&self) -> &Arc<Buffer> {
        &self.buffer
    }

    /// Whether `access` is the write of the first `span` bytes of the
    /// binding's region, of which nothing has happened yet.
    pub open spec fn writes(&self, access: RegionAccess, span: int) -> bool {
        let regions = self.buffer().staging_buffer()@.regions;
        self.region_index() < regions.len() && access == RegionAccess::begin_write(
            regions[self.region_index() as int],
            span as u64,
        )
    }

    /// Whether `access` is the read of the first `span` bytes of the
    /// binding's region, of which nothing has happened yet.
    pub open spec fn reads(&self, access: RegionAccess, span: int) -> bool {
        let regions = self.buffer().staging_buffer()@.regions;
        self.region_index() < regions.len() && access == RegionAccess::begin_read(
            regions[self.region_index() as int],
            span as u64,
        )
    }

    /// The size of the binding's region in bytes.
    pub open spec fn region_size(&self) -> int {
        self.buffer().staging_buffer()@.regions[self.region_index() as int].size() as int
    }

    /// Begins a write of the items of `item_size` bytes that lie whole in
    /// the region; of no bytes for items without size.
    fn write_items(&self, item_size: usize) -> (r: RegionAccess)
        ensures
            self.writes(r, whole_items(self.region_size(), item_size as int)),
    {
        proof {
            use_type_invariant(self);
        }
        let staging_buffer = self.buffer.staging_buffer();
        if item_size == 0 {
            match staging_buffer.nth_region(self.region_index) {
                Some(region) => RegionAccess::write(region, 0),
                None => staging_buffer.write_region(self.region_index),
            }
        } else {
            staging_buffer.write_region_with_slice(self.region_index, item_size)
        }
    }

    /// Begins a read of the items of `item_size` bytes that lie whole in
    /// the region; of no bytes for items without size.
    fn read_items(&self, item_size: usize) -> (r: RegionAccess)
        ensures
            self.reads(r, whole_items(self.region_size(), item_size as int)),
    {
        proof {
            use_type_invariant(self);
        }
        let staging_buffer = self.buffer.staging_buffer();
        if item_size == 0 {
            match staging_buffer.nth_region(self.region_index) {
                Some(region) => RegionAccess::read(region, 0),
                None => staging_buffer.read_region(self.region_index),
            }
        } else {
            staging_buffer.read_region_with_slice(self.region_index, item_size)
        }
    }

    /// Begins a write of the whole region.
    fn write_whole(&self) -> (r: RegionAccess)
        ensures
            self.writes(r, self.region_size()),
    {
        proof {
            use_type_invariant(self);
        }
        self.buffer.staging_buffer().write_region(self.region_index)
    }

    /// Begins a read of the whole region.
    fn read_whole(&self) -> (r: RegionAccess)
        ensures
            self.reads(r, self.region_size()),
    {
        proof {
            use_type_invariant(self);
        }
        self.buffer.staging_buffer().read_region(self.region_index)
    }
}

impl<ItemType> BufferBindingView<BindingArray<ItemType>> {
    /// Begins the update of the array: the caller writes the items that
    /// lie whole in the region, and they are sent to the device.
    pub fn update_array(&self) -> (r: RegionAccess)
        ensures
            self.writes(r, whole_items(self.region_size(), size_of::<ItemType>() as int)),
    {
        self.write_items(core::mem::size_of::<ItemType>())
    }

    /// Begins the fetch of the array: the region is brought from the
    /// device, and the caller reads the items that lie whole in it.
    pub fn fetch_array(&self) -> (r: RegionAccess)
        ensures
            self.reads(r, whole_items(self.region_size(), size_of::<ItemType>() as int)),
    {
        self.read_items(core::mem::size_of::<ItemType>())
    }
}

impl<ValueType> BufferBindingView<BindingValue<ValueType>> {
    /// Begins the update of the value: the caller writes the region, and
    /// it is sent to the device.
    pub fn update_value(&self) -> (r: RegionAccess)
        ensures
            self.writes(r, self.region_size()),
    {
        self.write_whole()
    }

    /// Begins the fetch of the value: the region is brought from the
    /// device, and the caller reads it.
    pub fn fetch_value(&self) -> (r: RegionAccess)
        ensures
            self.reads(r, self.region_size()),
    {
        self.read_whole()
    }
}

impl BufferBindingView<()> {
    /// Begins the update of the region: the caller writes it, and it is
    /// sent to the device.
    pub fn update(&self) -> (r: RegionAccess)
        ensures
            self.writes(r, self.region_size()),
    {
        self.write_whole()
    }

    /// Begins the fetch of the region: it is brought from the device, and
    /// the caller reads it.
    pub fn fetch(&self) -> (r: RegionAccess)
        ensures
            self.reads(r, self.region_size()),
    {
        self.read_whole()
    }
}

} // verus!
