//! Restyle damage: the work that a change of style leaves to layout.

use vstd::prelude::*;
use vstd::std_specs::ops::BitOrSpecImpl;

verus! {

/// The kinds of work that layout has left to do for a node, one bit each. Bits
/// other than the ones named here belong to the layout engine.
#[derive(Clone, Copy, Debug, PartialEq, Eq, Structural)]
pub struct RestyleDamage {
    /// One bit for each kind of work.
    pub bits: u32,
}

/// Boxes must be built anew.
pub const REBUILD: u32 = 0x1;

/// Positions and sizes must be computed anew.
pub const REFLOW: u32 = 0x2;

impl RestyleDamage {
    /// The damage that leaves no work.
    pub open spec fn none() -> Self {
        RestyleDamage { bits: 0 }
    }

    /// The damage of a node that layout has not seen yet.
    pub open spec fn whole() -> Self {
        RestyleDamage { bits: REBUILD | REFLOW }
    }

    /// The damage that leaves the work of both.
    pub open spec fn joined(self, other: Self) -> Self {
        RestyleDamage { bits: self.bits | other.bits }
    }

    /// Whether all the work of `other` is part of this damage.
    pub open spec fn includes(self, other: Self) -> bool {
        self.bits & other.bits == other.bits
    }

    /// Makes the damage that leaves no work.
    pub fn empty() -> (r: Self)
        ensures
            r == Self::none(),
            r.bits == 0,
    {
        RestyleDamage { bits: 0 }
    }

    /// Makes the damage that stands for the delta from nothing at all: the boxes
    /// have to be built and laid out.
    pub fn rebuild_and_reflow() -> (r: Self)
        ensures
            r == Self::whole(),
            r.bits == REBUILD | REFLOW,
    {
        RestyleDamage { bits: REBUILD | REFLOW }
    }
}

impl BitOrSpecImpl for RestyleDamage {
    open spec fn obeys_bitor_spec() -> bool {
        true
    }

    open spec fn bitor_req(self, other: Self) -> bool {
        true
    }

    open spec fn bitor_spec(self, other: Self) -> Self {
        self.joined(other)
    }
}

impl std::ops::BitOr for RestyleDamage {
    type Output = Self;

    fn bitor(self, other: Self) -> (r: Self)
        ensures
            r.bits == self.bits | other.bits,
    {
        RestyleDamage { bits: self.bits | other.bits }
    }
}

/// Empty damage has no bit set. The damage of a node that layout has not seen has
/// the bits for rebuilding and for reflow, which differ, and no other.
pub proof fn law_damage_values(kind: u32)
    ensures
        RestyleDamage::none().bits == 0,
        RestyleDamage::whole().bits & kind != 0 <==> REBUILD & kind != 0 || REFLOW & kind != 0,
        REBUILD != 0,
        REFLOW != 0,
        REBUILD & REFLOW == 0,
        RestyleDamage::whole() != RestyleDamage::none(),
{
    assert((1u32 | 2u32) & kind != 0 <==> 1u32 & kind != 0 || 2u32 & kind != 0) by (bit_vector);
    assert(1u32 & 2u32 == 0) by (bit_vector);
    assert(1u32 | 2u32 != 0) by (bit_vector);
}

/// Added damage has a kind of work exactly if one of the two has it.
pub proof fn law_added_damage_by_kind(a: RestyleDamage, b: RestyleDamage, kind: u32)
    ensures
        a.joined(b).bits == a.bits | b.bits,
        a.joined(b).bits & kind != 0 <==> a.bits & kind != 0 || b.bits & kind != 0,
{
    let x = a.bits;
    let y = b.bits;
    assert((x | y) & kind != 0 <==> x & kind != 0 || y & kind != 0) by (bit_vector);
}

/// Damage includes other damage exactly if it has every kind of work that the
/// other has.
pub proof fn law_inclusion_by_kind(a: RestyleDamage, b: RestyleDamage)
    ensures
        a.includes(b) <==> forall|kind: u32| #[trigger]
            (b.bits & kind) != 0 ==> a.bits & kind != 0,
{
    let x = a.bits;
    let y = b.bits;
    assert forall|kind: u32| a.includes(b) && #[trigger] (y & kind) != 0 implies x & kind != 0 by {
        assert(x & y == y && y & kind != 0 ==> x & kind != 0) by (bit_vector);
    }
    if forall|kind: u32| #[trigger] (y & kind) != 0 ==> x & kind != 0 {
        let missing = y & !x;
        assert(y & (y & !x) != 0 ==> x & (y & !x) == 0) by (bit_vector);
        assert(y & missing != 0 ==> x & missing != 0);
        assert(y & (y & !x) == 0 ==> x & y == y) by (bit_vector);
    }
}

/// Adding damage that leaves no work changes nothing.
pub proof fn law_empty_damage_is_neutral(damage: RestyleDamage)
    ensures
        damage.joined(RestyleDamage::none()) == damage,
        RestyleDamage::none().joined(damage) == damage,
{
    let bits = damage.bits;
    assert(bits | 0u32 == bits) by (bit_vector);
    assert(0u32 | bits == bits) by (bit_vector);
}

/// Damage accumulates: the order of additions does not matter, nor do
/// repetitions, and no work is ever lost.
pub proof fn law_damage_accumulates(a: RestyleDamage, b: RestyleDamage, c: RestyleDamage)
    ensures
        a.joined(b) == b.joined(a),
        a.joined(b).joined(c) == a.joined(b.joined(c)),
        a.joined(b).joined(b) == a.joined(b),
        a.joined(b).includes(a),
        a.joined(b).includes(b),
{
    let x = a.bits;
    let y = b.bits;
    let z = c.bits;
    assert(x | y == y | x) by (bit_vector);
    assert((x | y) | z == x | (y | z)) by (bit_vector);
    assert((x | y) | y == x | y) by (bit_vector);
    assert((x | y) & x == x) by (bit_vector);
    assert((x | y) & y == y) by (bit_vector);
}

} // verus!
