//! Contiguous layouts: parts of given sizes laid end to end from offset 0.
//!
//! The regions of a staging buffer and the constants of a shader are both
//! laid out this way, without padding.

use vstd::prelude::*;

verus! {

/// The sum of `sizes`.
pub open spec fn total(sizes: Seq<nat>) -> nat
    decreases sizes.len(),
{
    if sizes.len() == 0 {
        0
    } else {
        total(sizes.drop_last()) + sizes.last()
    }
}

/// Where part `i` begins: the sum of the sizes of the parts before it.
pub open spec fn offset(sizes: Seq<nat>, i: int) -> nat
    recommends
        0 <= i <= sizes.len(),
{
    total(sizes.take(i))
}

/// The parts of `parts` one after another.
pub open spec fn concat(parts: Seq<Seq<u8>>) -> Seq<u8>
    decreases parts.len(),
{
    if parts.len() == 0 {
        Seq::empty()
    } else {
        concat(parts.drop_last()) + parts.last()
    }
}

/// The length of each part.
pub open spec fn lengths(parts: Seq<Seq<u8>>) -> Seq<nat> {
    Seq::new(parts.len(), |i: int| parts[i].len())
}

/// `bytes` with the bytes from `at` on replaced by `part`.
pub open spec fn overwrite(bytes: Seq<u8>, at: int, part: Seq<u8>) -> Seq<u8>
    recommends
        0 <= at,
        at + part.len() <= bytes.len(),
{
    Seq::new(
        bytes.len(),
        |k: int|
            if at <= k < at + part.len() {
                part[k - at]
            } else {
                bytes[k]
            },
    )
}

/// The first part begins at 0, each part ends where the next begins, and
/// the last part ends at the total.
pub proof fn lemma_offset_step(sizes: Seq<nat>, i: int)
    requires
        0 <= i < sizes.len(),
    ensures
        offset(sizes, 0) == 0,
        offset(sizes, i) + sizes[i] == offset(sizes, i + 1),
        offset(sizes, sizes.len() as int) == total(sizes),
{
    assert(sizes.take(0) =~= Seq::<nat>::empty());
    assert(sizes.take(i + 1).drop_last() =~= sizes.take(i));
    assert(sizes.take(i + 1).last() == sizes[i]);
    assert(sizes.take(sizes.len() as int) =~= sizes);
}

/// Offsets do not decrease: an earlier part ends before a later one begins.
pub proof fn lemma_offset_monotone(sizes: Seq<nat>, i: int, j: int)
    requires
        0 <= i <= j <= sizes.len(),
    ensures
        offset(sizes, i) <= offset(sizes, j),
    decreases j - i,
{
    if i < j {
        lemma_offset_monotone(sizes, i, j - 1);
        lemma_offset_step(sizes, j - 1);
    }
}

/// Every part lies within the whole: it ends at or before the total.
pub proof fn lemma_part_within(sizes: Seq<nat>, i: int)
    requires
        0 <= i < sizes.len(),
    ensures
        offset(sizes, i) + sizes[i] <= total(sizes),
{
    lemma_offset_step(sizes, i);
    lemma_offset_monotone(sizes, i + 1, sizes.len() as int);
}

/// Two different parts do not overlap: the earlier one ends at or before
/// the offset of the later one.
pub proof fn lemma_parts_disjoint(sizes: Seq<nat>, i: int, j: int)
    requires
        0 <= i < j < sizes.len(),
    ensures
        offset(sizes, i) + sizes[i] <= offset(sizes, j),
{
    lemma_offset_step(sizes, i);
    lemma_offset_monotone(sizes, i + 1, j);
}

/// The lengths of a prefix are the prefix of the lengths.
pub proof fn lemma_lengths_take(parts: Seq<Seq<u8>>, i: int)
    requires
        0 <= i <= parts.len(),
    ensures
        lengths(parts.take(i)) == lengths(parts).take(i),
{
    assert(lengths(parts.take(i)) =~= lengths(parts).take(i));
}

/// The concatenation is as long as its parts together.
pub proof fn lemma_concat_len(parts: Seq<Seq<u8>>)
    ensures
        concat(parts).len() == total(lengths(parts)),
    decreases parts.len(),
{
    if parts.len() > 0 {
        lemma_concat_len(parts.drop_last());
        assert(lengths(parts).drop_last() =~= lengths(parts.drop_last()));
    }
}

/// The concatenation of a longer prefix begins with that of a shorter one.
pub proof fn lemma_concat_prefix(parts: Seq<Seq<u8>>, i: int, j: int)
    requires
        0 <= i <= j <= parts.len(),
    ensures
        concat(parts.take(i)).len() <= concat(parts.take(j)).len(),
        concat(parts.take(j)).subrange(0, concat(parts.take(i)).len() as int) == concat(
            parts.take(i),
        ),
    decreases j - i,
{
    if i < j {
        lemma_concat_prefix(parts, i, j - 1);
        assert(parts.take(j).drop_last() =~= parts.take(j - 1));
        assert(concat(parts.take(j)).subrange(0, concat(parts.take(i)).len() as int) =~= concat(
            parts.take(j - 1),
        ).subrange(0, concat(parts.take(i)).len() as int));
    } else {
        assert(concat(parts.take(j)).subrange(0, concat(parts.take(i)).len() as int) =~= concat(
            parts.take(i),
        ));
    }
}

/// Packing loses nothing: in the concatenation, the bytes from the offset
/// of part `i` on, as many as the part is long, are the part itself.
pub proof fn lemma_concat_part(parts: Seq<Seq<u8>>, i: int)
    requires
        0 <= i < parts.len(),
    ensures
        offset(lengths(parts), i) + parts[i].len() <= concat(parts).len(),
        concat(parts).subrange(
            offset(lengths(parts), i) as int,
            (offset(lengths(parts), i) + parts[i].len()) as int,
        ) == parts[i],
{
    let lens = lengths(parts);
    let start = offset(lens, i) as int;
    lemma_lengths_take(parts, i);
    lemma_concat_len(parts.take(i));
    assert(concat(parts.take(i)).len() == start);
    assert(parts.take(i + 1).drop_last() =~= parts.take(i));
    assert(parts.take(i + 1).last() == parts[i]);
    assert(concat(parts.take(i + 1)) == concat(parts.take(i)) + parts[i]);
    lemma_concat_prefix(parts, i + 1, parts.len() as int);
    assert(parts.take(parts.len() as int) =~= parts);
    let upto = concat(parts.take(i + 1));
    assert(concat(parts).subrange(0, upto.len() as int) == upto);
    assert(concat(parts).subrange(start, start + parts[i].len()) =~= parts[i]) by {
        assert forall|k: int| 0 <= k < parts[i].len() implies concat(parts)[start + k]
            == parts[i][k] by {
            assert(concat(parts).subrange(0, upto.len() as int)[start + k] == upto[start + k]);
        }
    }
}

} // verus!
