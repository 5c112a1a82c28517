//! The constants of a shader: their byte images, and how they are packed.

use vstd::prelude::*;
use crate::layout::{concat, lengths, offset, total};
use crate::vk::types::VkSpecializationMapEntry;

verus! {

/// The byte image of one constant of a shader, and its size.
#[derive(Debug, PartialEq, Eq)]
pub struct ConstantEntry {
    size: usize,
    bytes: Vec<u8>,
}

impl View for ConstantEntry {
    type V = Seq<u8>;

    closed spec fn view(&self) -> Seq<u8> {
        self.bytes@
    }
}

impl Clone for ConstantEntry {
    fn clone(&self) -> (r: Self)
        ensures
            r@ == self@,
    {
        let bytes = self.bytes.clone();
        assert(bytes@ =~= self.bytes@);
        ConstantEntry { size: bytes.len(), bytes }
    }
}

impl ConstantEntry {
    #[verifier::type_invariant]
    spec fn sized(self) -> bool {
        self.size == self.bytes@.len()
    }

    /// The constant whose byte image is `bytes`.
    pub fn new(bytes: Vec<u8>) -> (r: Self)
        ensures
            r@ == bytes@,
    {
        ConstantEntry { size: bytes.len(), bytes }
    }

    /// The number of bytes of the constant.
    pub fn size(&self) -> (r: usize)
        ensures
            r == self@.len(),
    {
        proof {
            use_type_invariant(self);
        }
        self.size
    }

    /// The byte image of the constant.
    pub fn bytes(&self) -> (r: &Vec<u8>)
        ensures
            r@ == self@,
    {
        &self.bytes
    }
}

/// The byte images of `entries`, in order.
pub open spec fn images(entries: Seq<ConstantEntry>) -> Seq<Seq<u8>> {
    Seq::new(entries.len(), |i: int| entries[i]@)
}

/// The bytes that all of `entries` take together.
pub open spec fn packed_size(entries: Seq<ConstantEntry>) -> nat {
    total(lengths(images(entries)))
}

/// Whether the driver can take `entries` as the constants of one shader or
/// of one dispatch: whether their number and their bytes together can each
/// be counted in 32 bits.
pub open spec fn spec_constants_fit(entries: Seq<ConstantEntry>) -> bool {
    entries.len() <= u32::MAX && packed_size(entries) <= u32::MAX
}

/// Whether the driver can take `entries` as the constants of one shader or
/// of one dispatch.
pub fn constants_fit(entries: &Vec<ConstantEntry>) -> (r: bool)
    ensures
        r == spec_constants_fit(entries@),
{
    entries.len() <= u32::MAX as usize && packed_within(entries, u32::MAX)
}

/// Whether a dispatch may push `entries` on a pipeline whose layout has
/// room for `room` bytes of push constants: whether the packed bytes lie
/// within the room, and there is room at all where anything is pushed.
pub open spec fn spec_push_constants_fit(entries: Seq<ConstantEntry>, room: u32) -> bool {
    packed_size(entries) <= room && (entries.len() > 0 ==> room > 0)
}

/// Whether a dispatch may push `entries` on a pipeline whose layout has
/// room for `room` bytes of push constants.
pub fn push_constants_fit(entries: &Vec<ConstantEntry>, room: u32) -> (r: bool)
    ensures
        r == spec_push_constants_fit(entries@, room),
{
    (entries.len() == 0 || room > 0) && packed_within(entries, room)
}

/// Whether `entries` take no more than `limit` bytes together.
pub fn packed_within(entries: &Vec<ConstantEntry>, limit: u32) -> (r: bool)
    ensures
        r == (packed_size(entries@) <= limit),
{
    let mut sum: usize = 0;
    let mut i: usize = 0;
    while i < entries.len()
        invariant
            i <= entries@.len(),
            sum == packed_size(entries@.take(i as int)),
            sum <= limit,
        decreases entries@.len() - i,
    {
        let size = entries[i].size();
        proof {
            let upto = images(entries@.take(i + 1));
            assert(upto.drop_last() =~= images(entries@.take(i as int)));
            assert(lengths(upto).drop_last() =~= lengths(images(entries@.take(i as int))));
            assert(lengths(upto).last() == size);
            assert(packed_size(entries@.take(i + 1)) == sum + size);
            if sum + size > limit {
                lemma_packed_size_monotone(entries@, i + 1);
            }
        }
        if size > limit as usize - sum {
            return false;
        }
        sum = sum + size;
        i += 1;
    }
    assert(entries@.take(entries@.len() as int) =~= entries@);
    true
}

/// No constants have no byte images and take no bytes, so they fit
/// everywhere.
pub proof fn lemma_no_constants()
    ensures
        images(Seq::<ConstantEntry>::empty()) == Seq::<Seq<u8>>::empty(),
        packed_size(Seq::<ConstantEntry>::empty()) == 0,
        spec_constants_fit(Seq::<ConstantEntry>::empty()),
        forall|room: u32| spec_push_constants_fit(Seq::<ConstantEntry>::empty(), room),
{
    assert(images(Seq::<ConstantEntry>::empty()) =~= Seq::<Seq<u8>>::empty());
    assert(lengths(Seq::<Seq<u8>>::empty()) =~= Seq::<nat>::empty());
}

/// The constants up to a point take no more bytes than all of them.
pub proof fn lemma_packed_size_monotone(entries: Seq<ConstantEntry>, i: int)
    requires
        0 <= i <= entries.len(),
    ensures
        packed_size(entries.take(i)) <= packed_size(entries),
{
    let lens = lengths(images(entries));
    assert(lengths(images(entries.take(i))) =~= lens.take(i));
    crate::layout::lemma_offset_monotone(lens, i, lens.len() as int);
    assert(lens.take(lens.len() as int) =~= lens);
}

/// The byte images of `entries` one after another, in order, without
/// padding.
pub fn pack(entries: &Vec<ConstantEntry>) -> (data: Vec<u8>)
    ensures
        data@ == concat(images(entries@)),
{
    let mut data: Vec<u8> = Vec::new();
    let mut i: usize = 0;
    while i < entries.len()
        invariant
            i <= entries@.len(),
            data@ == concat(images(entries@.take(i as int))),
        decreases entries@.len() - i,
    {
        let bytes = entries[i].bytes();
        let ghost before = data@;
        let mut k: usize = 0;
        while k < bytes.len()
            invariant
                k <= bytes@.len(),
                data@ == before + bytes@.take(k as int),
            decreases bytes@.len() - k,
        {
            data.push(bytes[k]);
            assert(bytes@.take(k + 1) =~= bytes@.take(k as int).push(bytes@[k as int]));
            assert(data@ =~= before + bytes@.take(k + 1));
            k += 1;
        }
        proof {
            assert(bytes@.take(bytes@.len() as int) =~= bytes@);
            let upto = images(entries@.take(i + 1));
            assert(upto.drop_last() =~= images(entries@.take(i as int)));
            assert(upto.last() == entries@[i as int]@);
        }
        i += 1;
    }
    assert(entries@.take(entries@.len() as int) =~= entries@);
    data
}

/// Where each of `entries` lies in their packed bytes: entry `i` is
/// constant number `i`, begins where the entries before it end, and is as
/// long as its byte image.
pub fn specialization_map(entries: &Vec<ConstantEntry>) -> (map: Vec<VkSpecializationMapEntry>)
    requires
        spec_constants_fit(entries@),
    ensures
        map@.len() == entries@.len(),
        forall|i: int|
            0 <= i < entries@.len() ==> #[trigger] map@[i] == (VkSpecializationMapEntry {
                constantID: i as u32,
                offset: offset(lengths(images(entries@)), i) as u32,
                size: entries@[i]@.len() as usize,
            }),
{
    let ghost lens = lengths(images(entries@));
    let mut map: Vec<VkSpecializationMapEntry> = Vec::new();
    let mut at: u32 = 0;
    let mut i: usize = 0;
    while i < entries.len()
        invariant
            i <= entries@.len(),
            spec_constants_fit(entries@),
            lens == lengths(images(entries@)),
            at == offset(lens, i as int),
            map@.len() == i,
            forall|k: int|
                0 <= k < i ==> #[trigger] map@[k] == (VkSpecializationMapEntry {
                    constantID: k as u32,
                    offset: offset(lens, k) as u32,
                    size: entries@[k]@.len() as usize,
                }),
        decreases entries@.len() - i,
    {
        let size = entries[i].size();
        proof {
            crate::layout::lemma_offset_step(lens, i as int);
            crate::layout::lemma_part_within(lens, i as int);
        }
        map.push(VkSpecializationMapEntry::new(i as u32, at, size));
        at = at + size as u32;
        i += 1;
    }
    map
}

} // verus!
