//! Restyle hints: what has to be restyled, and how far down the tree.

use vstd::prelude::*;

verus! {

/// The directives that selector matching reports for a changed element.
#[derive(Clone, Copy, Debug, PartialEq, Eq, Structural)]
pub struct RestyleHint {
    /// The element itself must be restyled.
    pub restyle_self: bool,
    /// All descendants of the element must be restyled.
    pub restyle_descendants: bool,
    /// All later siblings of the element must be restyled.
    pub restyle_later_siblings: bool,
}

/// Enum to describe the different requirements that a restyle hint may impose
/// on its descendants.
#[derive(Clone, Copy, Debug, PartialEq, Eq, Structural)]
pub enum DescendantRestyleHint {
    /// This hint does not require any descendants to be restyled.
    Empty,
    /// This hint requires direct children to be restyled.
    Children,
    /// This hint requires all descendants to be restyled.
    Descendants,
}

impl DescendantRestyleHint {
    /// Whether descendants `depth` levels below the element must be restyled.
    /// Children are one level below; the element itself, at depth zero, is never
    /// covered.
    pub open spec fn covers(self, depth: nat) -> bool {
        match self {
            DescendantRestyleHint::Empty => false,
            DescendantRestyleHint::Children => depth == 1,
            DescendantRestyleHint::Descendants => depth >= 1,
        }
    }

    /// How much is required, from nothing to everything.
    pub open spec fn strength(self) -> nat {
        match self {
            DescendantRestyleHint::Empty => 0,
            DescendantRestyleHint::Children => 1,
            DescendantRestyleHint::Descendants => 2,
        }
    }

    /// What a child passes on to its own descendants.
    pub open spec fn propagated(self) -> Self {
        match self {
            DescendantRestyleHint::Descendants => DescendantRestyleHint::Descendants,
            _ => DescendantRestyleHint::Empty,
        }
    }

    /// The stronger of two requirements.
    pub open spec fn joined(self, other: Self) -> Self {
        match (self, other) {
            (DescendantRestyleHint::Empty, _) => other,
            (_, DescendantRestyleHint::Empty) => self,
            (DescendantRestyleHint::Children, DescendantRestyleHint::Children) => self,
            _ => DescendantRestyleHint::Descendants,
        }
    }

    /// Propagates this descendant behavior to a child element.
    fn propagate(self) -> (r: Self)
        ensures
            r == self.propagated(),
            r is Descendants <==> self is Descendants,
            r is Empty <==> self !is Descendants,
            forall|depth: nat| r.covers(depth) <==> depth >= 1 && self.covers(depth + 1),
    {
        if self == DescendantRestyleHint::Descendants {
            DescendantRestyleHint::Descendants
        } else {
            DescendantRestyleHint::Empty
        }
    }

    /// Combines two requirements into the weakest one that implies both.
    fn union(self, other: Self) -> (r: Self)
        ensures
            r == self.joined(other),
            r is Descendants <==> self is Descendants || other is Descendants,
            r is Empty <==> self is Empty && other is Empty,
            forall|depth: nat| r.covers(depth) <==> self.covers(depth) || other.covers(depth),
    {
        if self == DescendantRestyleHint::Descendants || other
            == DescendantRestyleHint::Descendants {
            DescendantRestyleHint::Descendants
        } else if self == DescendantRestyleHint::Children || other
            == DescendantRestyleHint::Children {
            DescendantRestyleHint::Children
        } else {
            DescendantRestyleHint::Empty
        }
    }
}

/// Restyle hint for storing on ElementData. We use a separate representation
/// to provide more type safety while propagating restyle hints down the tree.
#[derive(Debug)]
pub struct StoredRestyleHint {
    /// The element itself must be restyled.
    pub restyle_self: bool,
    /// What the element's descendants must do.
    pub descendants: DescendantRestyleHint,
}

impl StoredRestyleHint {
    /// Whether elements `depth` levels below this one must be restyled; depth
    /// zero is the element itself.
    pub open spec fn covers(self, depth: nat) -> bool {
        if depth == 0 {
            self.restyle_self
        } else {
            self.descendants.covers(depth)
        }
    }

    /// The hint that asks for nothing.
    pub open spec fn nothing() -> Self {
        StoredRestyleHint { restyle_self: false, descendants: DescendantRestyleHint::Empty }
    }

    /// The hint that asks for the element and everything below it.
    pub open spec fn everything() -> Self {
        StoredRestyleHint { restyle_self: true, descendants: DescendantRestyleHint::Descendants }
    }

    /// The hint that a child gets from this one.
    pub open spec fn propagated(self) -> Self {
        StoredRestyleHint {
            restyle_self: self.descendants.covers(1),
            descendants: self.descendants.propagated(),
        }
    }

    /// The hint that reaches a descendant `levels` below the element.
    pub open spec fn propagated_by(self, levels: nat) -> Self
        decreases levels,
    {
        if levels == 0 {
            self
        } else {
            self.propagated().propagated_by((levels - 1) as nat)
        }
    }

    /// The hint that asks for whatever either of the two asks for.
    pub open spec fn joined(self, other: Self) -> Self {
        StoredRestyleHint {
            restyle_self: self.restyle_self || other.restyle_self,
            descendants: self.descendants.joined(other.descendants),
        }
    }

    /// The part of the reported directives that a stored hint holds.
    pub open spec fn converted(hint: RestyleHint) -> Self {
        StoredRestyleHint {
            restyle_self: hint.restyle_self,
            descendants: if hint.restyle_descendants {
                DescendantRestyleHint::Descendants
            } else {
                DescendantRestyleHint::Empty
            },
        }
    }

    /// Makes the stored form of reported directives. It has no place for later
    /// siblings: the caller should have applied that directive and taken it out.
    pub fn from(hint: RestyleHint) -> (r: Self)
        requires
            !hint.restyle_later_siblings,
        ensures
            r == Self::converted(hint),
            r.restyle_self <==> hint.restyle_self,
            r.descendants is Descendants <==> hint.restyle_descendants,
            r.descendants is Empty <==> !hint.restyle_descendants,
    {
        StoredRestyleHint {
            restyle_self: hint.restyle_self,
            descendants: if hint.restyle_descendants {
                DescendantRestyleHint::Descendants
            } else {
                DescendantRestyleHint::Empty
            },
        }
    }

    /// Propagates this restyle hint to a child element.
    pub fn propagate(&self) -> (r: Self)
        ensures
            r == self.propagated(),
            r.restyle_self <==> self.descendants !is Empty,
            r.descendants is Descendants <==> self.descendants is Descendants,
            r.descendants is Empty <==> self.descendants !is Descendants,
            forall|depth: nat| #[trigger] r.covers(depth) <==> self.covers(depth + 1),
    {
        StoredRestyleHint {
            restyle_self: self.descendants != DescendantRestyleHint::Empty,
            descendants: self.descendants.propagate(),
        }
    }

    /// Makes the hint that asks for nothing.
    pub fn empty() -> (r: Self)
        ensures
            r == Self::nothing(),
            !r.restyle_self,
            r.descendants is Empty,
            forall|depth: nat| !r.covers(depth),
    {
        StoredRestyleHint { restyle_self: false, descendants: DescendantRestyleHint::Empty }
    }

    /// Makes the hint that asks for the element and its whole subtree.
    pub fn subtree() -> (r: Self)
        ensures
            r == Self::everything(),
            r.restyle_self,
            r.descendants is Descendants,
            forall|depth: nat| r.covers(depth),
    {
        StoredRestyleHint { restyle_self: true, descendants: DescendantRestyleHint::Descendants }
    }

    /// Whether the hint asks for nothing.
    pub fn is_empty(&self) -> (r: bool)
        ensures
            r <==> *self == Self::nothing(),
            r <==> !self.restyle_self && self.descendants is Empty,
            r <==> forall|depth: nat| !self.covers(depth),
    {
        proof {
            lemma_nothing_covers_nothing(*self);
        }
        !self.restyle_self && self.descendants == DescendantRestyleHint::Empty
    }

    /// Adds what `other` asks for to this hint.
    pub fn insert(&mut self, other: &Self)
        ensures
            *final(self) == old(self).joined(*other),
            final(self).restyle_self <==> old(self).restyle_self || other.restyle_self,
            final(self).descendants is Descendants <==> old(self).descendants is Descendants
                || other.descendants is Descendants,
            final(self).descendants is Empty <==> old(self).descendants is Empty
                && other.descendants is Empty,
            forall|depth: nat| #[trigger]
                final(self).covers(depth) <==> old(self).covers(depth) || other.covers(depth),
    {
        self.restyle_self = self.restyle_self || other.restyle_self;
        self.descendants = self.descendants.union(other.descendants);
    }
}

impl Clone for StoredRestyleHint {
    fn clone(&self) -> (r: Self)
        ensures
            r == *self,
    {
        StoredRestyleHint { restyle_self: self.restyle_self, descendants: self.descendants }
    }
}

impl Default for StoredRestyleHint {
    fn default() -> (r: Self)
        ensures
            r == StoredRestyleHint::nothing(),
            !r.restyle_self,
            r.descendants is Empty,
    {
        StoredRestyleHint { restyle_self: false, descendants: DescendantRestyleHint::Empty }
    }
}

/// A hint is empty exactly when it covers no depth.
proof fn lemma_nothing_covers_nothing(hint: StoredRestyleHint)
    ensures
        hint == StoredRestyleHint::nothing() <==> forall|depth: nat| !hint.covers(depth),
{
    if forall|depth: nat| !hint.covers(depth) {
        assert(!hint.covers(0));
        assert(!hint.covers(1));
    }
}

/// The union of two requirements on descendants is the larger of the two, where
/// `Empty` is less than `Children` and `Children` less than `Descendants`, and it
/// covers the depths that either covers.
pub proof fn law_union_is_the_larger(a: DescendantRestyleHint, b: DescendantRestyleHint)
    ensures
        a.joined(b) == if a.strength() >= b.strength() {
            a
        } else {
            b
        },
        forall|depth: nat| #[trigger]
            a.joined(b).covers(depth) <==> a.covers(depth) || b.covers(depth),
{
}

/// The union of requirements on descendants is commutative, associative and
/// idempotent; `Empty` adds nothing to it and `Descendants` leaves nothing to add.
pub proof fn law_union_is_a_join(
    a: DescendantRestyleHint,
    b: DescendantRestyleHint,
    c: DescendantRestyleHint,
)
    ensures
        a.joined(b) == b.joined(a),
        a.joined(b).joined(c) == a.joined(b.joined(c)),
        a.joined(a) == a,
        a.joined(DescendantRestyleHint::Empty) == a,
        a.joined(DescendantRestyleHint::Descendants) == DescendantRestyleHint::Descendants,
{
}

/// `Empty` concerns no depth, `Children` the first one below the element, and
/// `Descendants` every depth below it.
pub proof fn law_reach_of_requirements(depth: nat)
    ensures
        !DescendantRestyleHint::Empty.covers(depth),
        DescendantRestyleHint::Children.covers(depth) <==> depth == 1,
        DescendantRestyleHint::Descendants.covers(depth) <==> depth >= 1,
        DescendantRestyleHint::Empty.strength() < DescendantRestyleHint::Children.strength(),
        DescendantRestyleHint::Children.strength() < DescendantRestyleHint::Descendants.strength(),
{
}

/// A hint concerns the element if it says so, the children if it asks anything of
/// descendants, and every depth below them if it asks for all descendants.
pub proof fn law_reach_of_hints(hint: StoredRestyleHint, depth: nat)
    ensures
        hint.covers(0) <==> hint.restyle_self,
        hint.covers(1) <==> hint.descendants !is Empty,
        depth >= 2 ==> (hint.covers(depth) <==> hint.descendants is Descendants),
{
}

/// The two extreme hints: one sets nothing, the other everything.
pub proof fn law_extreme_hints(depth: nat)
    ensures
        !StoredRestyleHint::nothing().restyle_self,
        StoredRestyleHint::nothing().descendants is Empty,
        !StoredRestyleHint::nothing().covers(depth),
        StoredRestyleHint::everything().restyle_self,
        StoredRestyleHint::everything().descendants is Descendants,
        StoredRestyleHint::everything().covers(depth),
{
}

/// A requirement on all descendants is passed on whole; any other stops at the
/// children, who pass on nothing.
pub proof fn law_only_all_descendants_are_passed_on(requirement: DescendantRestyleHint)
    ensures
        requirement is Descendants ==> requirement.propagated() is Descendants,
        requirement !is Descendants ==> requirement.propagated() is Empty,
{
}

/// A child is restyled exactly if its parent's hint asks anything of descendants,
/// and its own descendants are concerned exactly if the parent's hint asks for all
/// of them. Whether the parent itself is restyled makes no difference.
pub proof fn law_child_hint(parent: StoredRestyleHint)
    ensures
        parent.propagated().restyle_self <==> parent.descendants !is Empty,
        parent.descendants is Descendants ==> parent.propagated().descendants is Descendants,
        parent.descendants !is Descendants ==> parent.propagated().descendants is Empty,
{
}

/// Propagating level by level: no level changes nothing, and each further level
/// is one more step to a child.
pub proof fn law_propagation_is_step_by_step(hint: StoredRestyleHint, levels: nat)
    ensures
        hint.propagated_by(0) == hint,
        hint.propagated_by(levels + 1) == hint.propagated_by(levels).propagated(),
    decreases levels,
{
    reveal_with_fuel(StoredRestyleHint::propagated_by, 2);
    if levels > 0 {
        law_propagation_is_step_by_step(hint.propagated(), (levels - 1) as nat);
    }
}

/// The union of two requirements asks for all descendants exactly if one of them
/// does, and for none exactly if neither asks for any.
pub proof fn law_union_by_variant(a: DescendantRestyleHint, b: DescendantRestyleHint)
    ensures
        a.joined(b) is Descendants <==> a is Descendants || b is Descendants,
        a.joined(b) is Empty <==> a is Empty && b is Empty,
{
}

/// Inserting a hint restyles the element if either hint does, asks for all
/// descendants exactly if one of the two does, and for none exactly if neither
/// asks for any.
pub proof fn law_insertion_by_field(a: StoredRestyleHint, b: StoredRestyleHint)
    ensures
        a.joined(b).restyle_self <==> a.restyle_self || b.restyle_self,
        a.joined(b).descendants is Descendants <==> a.descendants is Descendants
            || b.descendants is Descendants,
        a.joined(b).descendants is Empty <==> a.descendants is Empty && b.descendants is Empty,
{
}

/// Each directive for the element and its descendants goes into its own field, and
/// the one for later siblings into none.
pub proof fn law_conversion_by_field(hint: RestyleHint)
    ensures
        StoredRestyleHint::converted(hint).restyle_self <==> hint.restyle_self,
        hint.restyle_descendants ==> StoredRestyleHint::converted(hint).descendants is Descendants,
        !hint.restyle_descendants ==> StoredRestyleHint::converted(hint).descendants is Empty,
{
}

/// Two hints that cover the same depths are the same hint.
pub proof fn law_hint_is_its_coverage(a: StoredRestyleHint, b: StoredRestyleHint)
    requires
        forall|depth: nat| a.covers(depth) <==> b.covers(depth),
    ensures
        a == b,
{
    assert(a.covers(0) <==> b.covers(0));
    assert(a.covers(1) <==> b.covers(1));
    assert(a.covers(2) <==> b.covers(2));
}

/// After any number of propagations down the tree, the element reached is
/// restyled exactly when the hint at the top covers its depth, and the hint it
/// holds covers what the top hint covers below it.
pub proof fn law_propagation_follows_depth(hint: StoredRestyleHint, levels: nat)
    ensures
        hint.propagated_by(levels).restyle_self <==> hint.covers(levels),
        forall|depth: nat|
            #![trigger hint.propagated_by(levels).covers(depth)]
            hint.propagated_by(levels).covers(depth) <==> hint.covers(levels + depth),
    decreases levels,
{
    if levels > 0 {
        law_propagation_follows_depth(hint.propagated(), (levels - 1) as nat);
        assert forall|depth: nat|
            #![trigger hint.propagated_by(levels).covers(depth)]
            hint.propagated_by(levels).covers(depth) <==> hint.covers(levels + depth) by {
            let rest = (levels - 1) as nat;
            assert(hint.propagated().propagated_by(rest).covers(depth)
                <==> hint.propagated().covers(rest + depth));
        }
    }
    assert(hint.propagated_by(levels).covers(0) <==> hint.covers(levels));
}

/// Propagating a combined hint is the same as combining propagated hints.
pub proof fn law_propagation_distributes(a: StoredRestyleHint, b: StoredRestyleHint)
    ensures
        a.joined(b).propagated() == a.propagated().joined(b.propagated()),
{
}

/// The empty hint propagates to the empty hint, and the subtree hint to the
/// subtree hint.
pub proof fn law_propagation_fixed_points()
    ensures
        StoredRestyleHint::nothing().propagated() == StoredRestyleHint::nothing(),
        StoredRestyleHint::everything().propagated() == StoredRestyleHint::everything(),
{
}

/// Inserting hints is commutative, associative and idempotent: neither their
/// order nor repetitions matter.
pub proof fn law_insertion_order_is_irrelevant(
    a: StoredRestyleHint,
    b: StoredRestyleHint,
    c: StoredRestyleHint,
)
    ensures
        a.joined(b) == b.joined(a),
        a.joined(b).joined(c) == a.joined(b.joined(c)),
        a.joined(b).joined(b) == a.joined(b),
{
}

/// Inserting the empty hint changes nothing, inserting the subtree hint leaves
/// nothing to add, and only two empty hints combine into an empty one.
pub proof fn law_insertion_bounds(a: StoredRestyleHint, b: StoredRestyleHint)
    ensures
        a.joined(StoredRestyleHint::nothing()) == a,
        a.joined(StoredRestyleHint::everything()) == StoredRestyleHint::everything(),
        a.joined(b) == StoredRestyleHint::nothing() <==> a == StoredRestyleHint::nothing() && b
            == StoredRestyleHint::nothing(),
{
}

/// A stored hint made from reported directives covers the element exactly if
/// that was asked for, and each depth below it exactly if the descendants were.
pub proof fn law_conversion_keeps_directives(hint: RestyleHint, depth: nat)
    ensures
        StoredRestyleHint::converted(hint).covers(depth) <==> if depth == 0 {
            hint.restyle_self
        } else {
            hint.restyle_descendants
        },
{
}

} // verus!
