//! The styles of a node and of its pseudo-elements.

use fnv::FnvHasher;
use std::collections::HashMap;
use std::hash::BuildHasherDefault;
use std::ops::{Deref, DerefMut};
use std::sync::Arc;
use vstd::prelude::*;
use vstd::string::StringExecFns;

verus! {

/// The hasher that pseudo-element maps use, from the crate `fnv`. Nothing is
/// claimed of the hashes that it computes.
#[verifier::external_type_specification]
#[verifier::external_body]
pub struct ExFnvHasher(FnvHasher);

/// The builder of default hashers from `std::hash`. Nothing is claimed of the
/// hashers that it builds.
#[verifier::external_type_specification]
#[verifier::external_body]
#[verifier::reject_recursive_types(H)]
pub struct ExBuildHasherDefault<H>(BuildHasherDefault<H>);

/// The computed value of the `display` property.
#[derive(Clone, Copy, Debug, PartialEq, Eq, Structural)]
pub enum Display {
    /// `display: none`, which generates no box.
    NoBox,
    /// Any other value, by its keyword's number.
    Keyword(u8),
}

/// The computed values of all properties: `display`, which this crate reads, and
/// the other ones, which it only carries.
#[derive(Debug)]
pub struct ComputedValues<V> {
    /// The value of `display`.
    pub display: Display,
    /// The values of the other properties.
    pub others: V,
}

/// The style of one box: `R` is the type of the rule tree's nodes, `V` that of
/// the computed values which this crate does not read.
#[derive(Clone)]
pub struct ComputedStyle<R, V> {
    /// The rule node representing the ordered list of rules matched for this
    /// node.
    pub rules: R,
    /// The computed values for each property obtained by cascading the
    /// matched rules.
    pub values: Arc<ComputedValues<V>>,
}

impl<R, V> ComputedStyle<R, V> {
    /// Puts a style together.
    pub fn new(rules: R, values: Arc<ComputedValues<V>>) -> (r: Self)
        ensures
            r == (ComputedStyle { rules, values }),
    {
        ComputedStyle { rules, values }
    }

    /// The text that stands for a style in logs, given the text of its rules. It
    /// leaves the values out, which would be too long.
    pub fn debug_text(rules: &str) -> (r: String)
        ensures
            r@ == "ComputedStyle { rules: "@ + rules@ + ", values: {..} }"@,
    {
        "ComputedStyle { rules: ".to_owned().concat(rules).concat(", values: {..} }")
    }
}

/// The number of a pseudo-element.
pub type PseudoElement = u32;

/// The map behind `PseudoStyles`.
pub type PseudoStylesInner<R, V> = HashMap<
    PseudoElement,
    ComputedStyle<R, V>,
    BuildHasherDefault<FnvHasher>,
>;

/// The styles of a node's pseudo-elements.
#[derive(Clone)]
pub struct PseudoStyles<R, V>(PseudoStylesInner<R, V>);

impl<R, V> View for PseudoStyles<R, V> {
    type V = Map<PseudoElement, ComputedStyle<R, V>>;

    closed spec fn view(&self) -> Map<PseudoElement, ComputedStyle<R, V>> {
        self.0@
    }
}

impl<R, V> PseudoStyles<R, V> {
    /// Makes an empty map.
    pub fn empty() -> (r: Self)
        ensures
            r@ == Map::<PseudoElement, ComputedStyle<R, V>>::empty(),
    {
        PseudoStyles(HashMap::default())
    }
}

impl<R, V> Deref for PseudoStyles<R, V> {
    type Target = PseudoStylesInner<R, V>;

    fn deref(&self) -> (r: &PseudoStylesInner<R, V>)
        ensures
            r@ == self@,
    {
        &self.0
    }
}

impl<R, V> DerefMut for PseudoStyles<R, V> {
    fn deref_mut(&mut self) -> (r: &mut PseudoStylesInner<R, V>)
        ensures
            r@ == old(self)@,
            final(self)@ == final(r)@,
    {
        &mut self.0
    }
}

/// The styles associated with a node, including the styles for any
/// pseudo-elements.
#[derive(Clone)]
pub struct ElementStyles<R, V> {
    /// The style of the node itself.
    pub primary: ComputedStyle<R, V>,
    /// The styles of its pseudo-elements.
    pub pseudos: PseudoStyles<R, V>,
}

impl<R, V> ElementStyles<R, V> {
    /// Makes the styles of a node without pseudo-elements.
    pub fn new(primary: ComputedStyle<R, V>) -> (r: Self)
        ensures
            r.primary == primary,
            r.pseudos@ == Map::<PseudoElement, ComputedStyle<R, V>>::empty(),
    {
        ElementStyles { primary, pseudos: PseudoStyles::empty() }
    }

    /// Whether the node generates no box.
    pub fn is_display_none(&self) -> (r: bool)
        ensures
            r <==> self.primary.values.display == Display::NoBox,
    {
        self.primary.values.display == Display::NoBox
    }
}

} // verus!
