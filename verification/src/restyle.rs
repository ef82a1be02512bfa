//! What the restyle algorithm keeps for a node while it works on it.

use crate::damage::RestyleDamage;
use crate::hints::{RestyleHint, StoredRestyleHint};
use crate::snapshot::SnapshotOption;
use crate::styles::ElementStyles;
use std::ops::Deref;
use vstd::prelude::*;

verus! {

/// Transient data used by the restyle algorithm. This structure is instantiated
/// either before or during restyle traversal, and is cleared at the end of node
/// processing.
pub struct RestyleData<R, V, S> {
    /// The latest styles.
    pub styles: ElementStyles<R, V>,
    /// What has to be restyled.
    pub hint: StoredRestyleHint,
    /// Whether the values must be cascaded again.
    pub recascade: bool,
    /// The work left to layout so far.
    pub damage: RestyleDamage,
    /// The element's state before the changes that no hint accounts for yet.
    pub snapshot: SnapshotOption<S>,
}

impl<R, V, S> RestyleData<R, V, S> {
    /// The data of a node with the given styles and nothing to do.
    pub open spec fn fresh(styles: ElementStyles<R, V>) -> Self {
        RestyleData {
            styles,
            hint: StoredRestyleHint::nothing(),
            recascade: false,
            damage: RestyleDamage::none(),
            snapshot: SnapshotOption::vacant(),
        }
    }

    /// Whether nothing is known that could change the node's styles.
    pub open spec fn is_current(self) -> bool {
        !self.hint.restyle_self && !self.recascade && self.snapshot@ is None
    }

    /// The data after the snapshot has turned out to call for `hint`.
    pub open spec fn expanded(self, hint: RestyleHint) -> Self {
        RestyleData {
            hint: self.hint.joined(StoredRestyleHint::converted(hint)),
            snapshot: self.snapshot.gone(),
            ..self
        }
    }

    /// The data after restyling has come up with new styles.
    pub open spec fn finished(self, styles: ElementStyles<R, V>, damage: RestyleDamage) -> Self {
        RestyleData { styles, damage: self.damage.joined(damage), ..self }
    }

    /// Makes the data of a node with nothing to do.
    pub(crate) fn new(styles: ElementStyles<R, V>) -> (r: Self)
        ensures
            r == Self::fresh(styles),
            r.styles == styles,
            !r.hint.restyle_self,
            r.hint.descendants is Empty,
            !r.recascade,
            r.damage.bits == 0,
            r.snapshot@ is None,
            r.snapshot.held() is None,
    {
        RestyleData {
            styles,
            hint: StoredRestyleHint::default(),
            recascade: false,
            damage: RestyleDamage::empty(),
            snapshot: SnapshotOption::empty(),
        }
    }

    /// Expands the snapshot (if any) into a restyle hint. Returns true if later
    /// siblings must be restyled. `compute` matches the snapshot against the
    /// element's present state; it is called only if there is a snapshot.
    pub fn expand_snapshot<F: FnOnce(&S) -> RestyleHint>(&mut self, compute: F) -> (r: bool)
        requires
            old(self).snapshot@ matches Some(snapshot) ==> compute.requires((&snapshot,)),
        ensures
            match old(self).snapshot@ {
                None => !r && *final(self) == *old(self),
                Some(snapshot) => exists|hint: RestyleHint| #[trigger]
                    compute.ensures((&snapshot,), hint) && r == hint.restyle_later_siblings
                        && *final(self) == old(self).expanded(hint),
            },
            final(self).styles == old(self).styles,
            final(self).recascade == old(self).recascade,
            final(self).damage == old(self).damage,
            final(self).snapshot@ is None,
            final(self).snapshot.held() == old(self).snapshot.held(),
    {
        // Compute the hint.
        let hint = match self.snapshot.deref() {
            None => {
                return false;
            },
            Some(snapshot) => compute(snapshot),
        };
        self.apply_hint(hint)
    }

    /// Takes in the hint that the snapshot has been expanded to. Returns true if
    /// later siblings must be restyled.
    pub fn apply_hint(&mut self, hint: RestyleHint) -> (r: bool)
        ensures
            r == hint.restyle_later_siblings,
            *final(self) == old(self).expanded(hint),
            final(self).styles == old(self).styles,
            final(self).hint.restyle_self <==> old(self).hint.restyle_self || hint.restyle_self,
            final(self).hint.descendants is Descendants <==> old(self).hint.descendants is Descendants
                || hint.restyle_descendants,
            final(self).hint.descendants is Empty <==> old(self).hint.descendants is Empty
                && !hint.restyle_descendants,
            final(self).recascade == old(self).recascade,
            final(self).damage == old(self).damage,
            final(self).snapshot@ is None,
            final(self).snapshot.held() == old(self).snapshot.held(),
    {
        // If the hint includes a directive for later siblings, strip it out and
        // notify the caller to modify the base hint for future siblings.
        let mut hint = hint;
        let later_siblings = hint.restyle_later_siblings;
        hint.restyle_later_siblings = false;

        // Insert the hint.
        let stored: StoredRestyleHint = StoredRestyleHint::from(hint);
        self.hint.insert(&stored);

        // Destroy the snapshot.
        self.snapshot.destroy();

        later_siblings
    }

    /// Whether the styles are up to date, as far as is known.
    pub fn has_current_styles(&self) -> (r: bool)
        ensures
            r == self.is_current(),
            r <==> !self.hint.restyle_self && !self.recascade && self.snapshot@ is None,
    {
        !(self.hint.restyle_self || self.recascade || self.snapshot.deref().is_some())
    }

    /// The latest styles.
    pub fn styles(&self) -> (r: &ElementStyles<R, V>)
        ensures
            *r == self.styles,
    {
        &self.styles
    }

    /// The latest styles, for changing them.
    pub fn styles_mut(&mut self) -> (r: &mut ElementStyles<R, V>)
        ensures
            *r == old(self).styles,
            *final(self) == (RestyleData { styles: *final(r), ..*old(self) }),
    {
        &mut self.styles
    }

    /// Takes in the outcome of restyling the node.
    pub(crate) fn finish_styling(&mut self, styles: ElementStyles<R, V>, damage: RestyleDamage)
        requires
            !old(self).is_current(),
            old(self).snapshot@ is None,
        ensures
            *final(self) == old(self).finished(styles, damage),
            final(self).styles == styles,
            final(self).hint == old(self).hint,
            final(self).recascade == old(self).recascade,
            final(self).damage.bits == old(self).damage.bits | damage.bits,
            final(self).snapshot == old(self).snapshot,
    {
        self.styles = styles;
        self.damage = self.damage | damage;
        // The hint and recascade bits get cleared by the traversal code. This
        // is a bit confusing, and we should simplify it when we separate matching
        // from cascading.
    }
}

/// A node with nothing to do has the styles it was given, no hint, no cascade, no
/// damage and no snapshot. Its styles are current.
pub proof fn law_fresh_data_is_current<R, V, S>(styles: ElementStyles<R, V>)
    ensures
        RestyleData::<R, V, S>::fresh(styles).styles == styles,
        !RestyleData::<R, V, S>::fresh(styles).hint.restyle_self,
        RestyleData::<R, V, S>::fresh(styles).hint.descendants is Empty,
        !RestyleData::<R, V, S>::fresh(styles).recascade,
        RestyleData::<R, V, S>::fresh(styles).damage == RestyleDamage::none(),
        RestyleData::<R, V, S>::fresh(styles).damage.bits == 0,
        RestyleData::<R, V, S>::fresh(styles).snapshot@ is None,
        RestyleData::<R, V, S>::fresh(styles).snapshot.held() is None,
        RestyleData::<R, V, S>::fresh(styles).is_current(),
{
    crate::snapshot::law_empty_shows_nothing::<S>();
}

/// Styles are out of date if the hint concerns the element, if the values must be
/// cascaded again, or if a snapshot is in sight, each on its own account, and for
/// no other reason.
pub proof fn law_what_invalidates_styles<R, V, S>(data: RestyleData<R, V, S>)
    ensures
        data.hint.restyle_self ==> !data.is_current(),
        data.recascade ==> !data.is_current(),
        data.snapshot@ is Some ==> !data.is_current(),
        !data.is_current() ==> data.hint.restyle_self || data.recascade || data.snapshot@ is Some,
{
}

/// Whether styles are current depends on the element's own restyle bit, the
/// recascade bit and whether a snapshot is in sight, and on nothing else: not on
/// the styles, the damage, or what is asked of descendants.
pub proof fn law_currency_ignores_the_rest<R, V, S>(
    a: RestyleData<R, V, S>,
    b: RestyleData<R, V, S>,
)
    requires
        a.hint.restyle_self == b.hint.restyle_self,
        a.recascade == b.recascade,
        a.snapshot@ is Some <==> b.snapshot@ is Some,
    ensures
        a.is_current() == b.is_current(),
{
}

/// Expanding a snapshot moves it into the hint: the snapshot is out of sight
/// afterwards, though still held, and the hint covers what it covered before plus
/// what the reported directives ask of the element and its descendants.
pub proof fn law_expansion_moves_snapshot_into_hint<R, V, S>(
    data: RestyleData<R, V, S>,
    hint: RestyleHint,
)
    ensures
        data.expanded(hint).snapshot@ is None,
        data.expanded(hint).snapshot.held() == data.snapshot.held(),
        forall|depth: nat| #[trigger]
            data.expanded(hint).hint.covers(depth) <==> data.hint.covers(depth) || if depth == 0 {
                hint.restyle_self
            } else {
                hint.restyle_descendants
            },
{
    crate::snapshot::law_destroying_hides_and_keeps(data.snapshot);
}

/// Expanding a snapshot restyles the element if either the hint so far or the
/// reported directives do, and asks for all descendants if either does. A weaker
/// request for the children alone is kept.
pub proof fn law_expansion_by_field<R, V, S>(data: RestyleData<R, V, S>, hint: RestyleHint)
    ensures
        data.expanded(hint).hint.restyle_self <==> data.hint.restyle_self || hint.restyle_self,
        hint.restyle_descendants ==> data.expanded(hint).hint.descendants is Descendants,
        !hint.restyle_descendants ==> data.expanded(hint).hint.descendants
            == data.hint.descendants,
        data.expanded(hint).snapshot.is_destroyed(),
{
    crate::snapshot::law_destroying_hides_and_keeps(data.snapshot);
}

/// Expanding a snapshot changes neither the styles nor the damage, nor whether
/// the values must be cascaded again. The directive for later siblings leaves no
/// trace on the element.
pub proof fn law_expansion_leaves_the_rest<R, V, S>(
    data: RestyleData<R, V, S>,
    hint: RestyleHint,
    later_siblings: bool,
)
    ensures
        data.expanded(hint).styles == data.styles,
        data.expanded(hint).damage == data.damage,
        data.expanded(hint).recascade == data.recascade,
        data.expanded(hint) == data.expanded(
            (RestyleHint { restyle_later_siblings: later_siblings, ..hint }),
        ),
{
}

/// Once the snapshot is expanded, the styles are current exactly if neither the
/// hints nor a pending cascade concern the element itself.
pub proof fn law_expansion_decides_currency<R, V, S>(
    data: RestyleData<R, V, S>,
    hint: RestyleHint,
)
    ensures
        data.expanded(hint).is_current() <==> !data.hint.restyle_self && !data.recascade
            && !hint.restyle_self,
{
    law_expansion_moves_snapshot_into_hint(data, hint);
}

/// Finishing a restyle replaces the styles and adds to the damage, and nothing
/// else: the hint and the recascade bit stay for the traversal to clear, so the
/// styles do not count as current yet.
pub proof fn law_finishing_accumulates_damage<R, V, S>(
    data: RestyleData<R, V, S>,
    styles: ElementStyles<R, V>,
    damage: RestyleDamage,
)
    ensures
        data.finished(styles, damage).styles == styles,
        data.finished(styles, damage).damage.bits == data.damage.bits | damage.bits,
        data.finished(styles, damage).damage.includes(data.damage),
        data.finished(styles, damage).damage.includes(damage),
        data.finished(styles, damage).is_current() == data.is_current(),
        data.finished(styles, damage).hint == data.hint,
        data.finished(styles, damage).recascade == data.recascade,
        data.finished(styles, damage).snapshot == data.snapshot,
{
    crate::damage::law_damage_accumulates(data.damage, damage, damage);
}

} // verus!
