//! The distance test and the listing of the systems that pass it.

use crate::record::StarSystem;
use vstd::multiset::Multiset;
use vstd::prelude::*;
use vstd::seq_lib::{
    lemma_multiset_commutative, to_multiset_build, to_multiset_contains, to_multiset_len,
    to_multiset_remove,
};

verus! {

/// The default limit, 8.0, as a single-precision bit pattern.
pub const DEFAULT_LIMIT: u32 = 0x4100_0000;

/// The bit pattern without its sign bit.
pub open spec fn magnitude(bits: u32) -> int {
    if bits >= 0x8000_0000 {
        bits - 0x8000_0000
    } else {
        bits as int
    }
}

/// The bit pattern encodes no number.
pub open spec fn is_nan(bits: u32) -> bool {
    magnitude(bits) > 0x7f80_0000
}

/// The place of a number among the single-precision values: magnitudes grow
/// with their bit patterns, and the two zeros share a place.
pub open spec fn ordinal(bits: u32) -> int {
    if bits >= 0x8000_0000 {
        -magnitude(bits)
    } else {
        magnitude(bits)
    }
}

/// `a <= b` as single-precision comparison decides it: false as soon as one
/// side is no number.
pub open spec fn at_most(a: u32, b: u32) -> bool {
    !is_nan(a) && !is_nan(b) && ordinal(a) <= ordinal(b)
}

/// A system together with its measured distance from the reference system,
/// a single-precision bit pattern.
#[derive(Debug, Clone)]
pub struct Measured {
    pub system: StarSystem,
    pub distance: u32,
}

/// The name under which a system is listed: its own if it lies within
/// `limit`, none otherwise.
pub open spec fn listed(item: Measured, limit: u32) -> Option<Seq<char>> {
    if at_most(item.distance, limit) {
        Some(item.system.name@)
    } else {
        None
    }
}

/// The names of the systems within `limit`, in the order of `items`.
pub open spec fn names_within(items: Seq<Measured>, limit: u32) -> Seq<Seq<char>>
    decreases items.len(),
{
    if items.len() == 0 {
        Seq::empty()
    } else {
        let rest = names_within(items.drop_last(), limit);
        match listed(items.last(), limit) {
            Some(name) => rest.push(name),
            None => rest,
        }
    }
}

/// The reference system of the default search.
pub fn home_system() -> (r: StarSystem)
    ensures
        r.id == 19049,
        r.name@ == "WISE 1800+0134"@,
        r.x == 0xc156_8000u32,
        r.y == 0x40bf_0000u32,
        r.z == 0x41c5_4000u32,
        r.is_populated == 1,
{
    StarSystem {
        id: 19049,
        name: "WISE 1800+0134".to_owned(),
        x: 0xc156_8000,
        y: 0x40bf_0000,
        z: 0x41c5_4000,
        is_populated: 1,
    }
}

/// Decides whether a distance is within the limit, the limit included.
pub fn within_range(distance: u32, limit: u32) -> (r: bool)
    ensures
        r == at_most(distance, limit),
{
    let d_neg = distance >= 0x8000_0000;
    let l_neg = limit >= 0x8000_0000;
    let d_mag: u32 = if d_neg { distance - 0x8000_0000 } else { distance };
    let l_mag: u32 = if l_neg { limit - 0x8000_0000 } else { limit };
    if d_mag > 0x7f80_0000 || l_mag > 0x7f80_0000 {
        false
    } else if d_neg && l_neg {
        l_mag <= d_mag
    } else if d_neg {
        true
    } else if l_neg {
        d_mag == 0 && l_mag == 0
    } else {
        d_mag <= l_mag
    }
}

/// Gives the name of a system if its distance is within the limit: the
/// decision on one system, which depends on no other.
pub fn name_if_within(item: &Measured, limit: u32) -> (r: Option<String>)
    ensures
        match r {
            Some(name) => listed(*item, limit) == Some(name@),
            None => listed(*item, limit).is_none(),
        },
{
    if within_range(item.distance, limit) {
        Some(item.system.name.clone())
    } else {
        None
    }
}

/// Lists the names of the systems whose distance is within the limit, in the
/// order in which the systems were given.
pub fn nearby_names(items: &Vec<Measured>, limit: u32) -> (r: Vec<String>)
    ensures
        r.deep_view() == names_within(items@, limit),
{
    let mut names: Vec<String> = Vec::new();
    let mut i: usize = 0;
    while i < items.len()
        invariant
            0 <= i <= items.len(),
            names.deep_view() == names_within(items@.take(i as int), limit),
        decreases items.len() - i,
    {
        assert(items@.take(i + 1).drop_last() == items@.take(i as int));
        match name_if_within(&items[i], limit) {
            Some(name) => names.push(name),
            None => {},
        }
        i += 1;
    }
    assert(items@.take(i as int) == items@);
    names
}

/// A distance equal to the limit is within it, and among the non-negative
/// numbers every distance with a larger bit pattern than the limit's is
/// beyond it: the next value above the limit is already excluded.
pub proof fn lemma_limit_is_inclusive(distance: u32, limit: u32)
    requires
        !is_nan(limit),
    ensures
        at_most(limit, limit),
        limit < distance < 0x8000_0000 ==> !at_most(distance, limit),
{
}

/// The listing is the input restricted to the systems within the limit, each
/// replaced by its name: no system is moved, none is listed twice.
pub proof fn lemma_names_within_is_restriction(items: Seq<Measured>, limit: u32)
    ensures
        names_within(items, limit) == items.filter(
            |m: Measured| at_most(m.distance, limit),
        ).map_values(|m: Measured| m.system.name@),
    decreases items.len(),
{
    reveal(Seq::filter);
    let keep = |m: Measured| at_most(m.distance, limit);
    let name = |m: Measured| m.system.name@;
    if items.len() == 0 {
        assert(items.filter(keep).map_values(name) =~= Seq::<Seq<char>>::empty());
    } else {
        lemma_names_within_is_restriction(items.drop_last(), limit);
        let rest = items.drop_last().filter(keep);
        if keep(items.last()) {
            assert(rest.push(items.last()).map_values(name) =~= rest.map_values(name).push(
                name(items.last()),
            ));
        }
    }
}

/// Listing two runs of systems laid end to end gives the first run's names
/// followed by the second run's: the listing keeps the order of its input.
pub proof fn lemma_names_within_concat(a: Seq<Measured>, b: Seq<Measured>, limit: u32)
    ensures
        names_within(a + b, limit) == names_within(a, limit) + names_within(b, limit),
    decreases b.len(),
{
    if b.len() == 0 {
        assert(a + b == a);
    } else {
        lemma_names_within_concat(a, b.drop_last(), limit);
        assert((a + b).drop_last() == a + b.drop_last());
        let front = names_within(a, limit);
        let back = names_within(b.drop_last(), limit);
        let name = b.last().system.name@;
        assert((front + back).push(name) == front + back.push(name));
    }
}

/// Whatever the order in which the same systems are given, the same names are
/// listed, each as many times: one listing is a rearrangement of the other.
pub proof fn lemma_names_within_permutation(a: Seq<Measured>, b: Seq<Measured>, limit: u32)
    requires
        a.to_multiset() == b.to_multiset(),
    ensures
        names_within(a, limit).to_multiset() == names_within(b, limit).to_multiset(),
    decreases a.len(),
{
    broadcast use vstd::multiset::group_multiset_axioms;

    to_multiset_len(a);
    to_multiset_len(b);
    if a.len() == 0 {
        assert(b.len() == 0);
    } else {
        let x = a.last();
        let a1 = a.drop_last();
        assert(a == a1.push(x));
        to_multiset_build(a1, x);
        to_multiset_contains(b, x);
        let j = choose|j: int| 0 <= j < b.len() && b[j] == x;
        let b1 = b.remove(j);
        to_multiset_remove(b, j);
        assert(a1.to_multiset() =~= b1.to_multiset());
        lemma_names_within_permutation(a1, b1, limit);

        let head = b.take(j);
        let mid = seq![x];
        let tail = b.skip(j + 1);
        assert(b == head + mid + tail);
        assert(b1 == head + tail);
        lemma_names_within_concat(head, mid, limit);
        lemma_names_within_concat(head + mid, tail, limit);
        lemma_names_within_concat(head, tail, limit);
        let nh = names_within(head, limit);
        let nm = names_within(mid, limit);
        let nt = names_within(tail, limit);
        lemma_multiset_commutative(nh + nm, nt);
        lemma_multiset_commutative(nh, nm);
        lemma_multiset_commutative(nh, nt);
        assert(mid.drop_last() == Seq::<Measured>::empty());
        assert(names_within(mid.drop_last(), limit) == Seq::<Seq<char>>::empty());
        let n1 = names_within(a1, limit);
        if at_most(x.distance, limit) {
            let name = x.system.name@;
            assert(nm == Seq::<Seq<char>>::empty().push(name));
            to_multiset_build(Seq::<Seq<char>>::empty(), name);
            to_multiset_build(n1, name);
            to_multiset_len(Seq::<Seq<char>>::empty());
            assert(Seq::<Seq<char>>::empty().to_multiset() =~= Multiset::<Seq<char>>::empty());
            assert(names_within(b, limit) == nh + nm + nt);
        } else {
            assert(nh + nm == nh);
        }
    }
}

} // verus!
