//! Style system data associated with a node.

use crate::damage::RestyleDamage;
use crate::restyle::RestyleData;
use crate::styles::ElementStyles;
use vstd::pervasive::unreached;
use vstd::prelude::*;

verus! {

/// Style system data associated with a node.
///
/// A node is `Initial` until its first styles have been consumed, `Restyle` while
/// changes are worked on, and `Persistent` in between. `R` is the type of the rule
/// tree's nodes, `V` that of the computed values which this crate only carries,
/// and `S` that of the snapshots.
pub enum ElementData<R, V, S> {
    /// The node is new; its styles, if any, have not been consumed.
    Initial(Option<ElementStyles<R, V>>),
    /// The node is being restyled.
    Restyle(RestyleData<R, V, S>),
    /// The node has styles, and no change to them is under way.
    Persistent(ElementStyles<R, V>),
}

impl<R, V, S> ElementData<R, V, S> {
    /// The latest styles, if the node has any.
    pub open spec fn known_styles(self) -> Option<ElementStyles<R, V>> {
        match self {
            ElementData::Initial(styles) => styles,
            ElementData::Restyle(data) => Some(data.styles),
            ElementData::Persistent(styles) => Some(styles),
        }
    }

    /// The same data with other styles in place of the latest ones.
    pub open spec fn with_styles(self, styles: ElementStyles<R, V>) -> Self {
        match self {
            ElementData::Initial(_) => ElementData::Initial(Some(styles)),
            ElementData::Restyle(data) => ElementData::Restyle(RestyleData { styles, ..data }),
            ElementData::Persistent(_) => ElementData::Persistent(styles),
        }
    }

    /// Whether the styles are there and up to date, as far as is known.
    pub open spec fn is_current(self) -> bool {
        match self {
            ElementData::Initial(styles) => styles is Some,
            ElementData::Restyle(data) => data.is_current(),
            ElementData::Persistent(_) => true,
        }
    }

    /// The work that the node leaves to layout: all of it for a new node, what has
    /// accumulated for one that is being restyled, and none otherwise.
    pub open spec fn pending_damage(self) -> RestyleDamage {
        match self {
            ElementData::Initial(_) => RestyleDamage::whole(),
            ElementData::Restyle(data) => data.damage,
            ElementData::Persistent(_) => RestyleDamage::none(),
        }
    }

    /// The data that a restyle of the node starts from. Nothing is lost of a restyle
    /// under way, and styles that were never consumed count as a change from nothing.
    pub open spec fn restyle_data(self) -> RestyleData<R, V, S>
        recommends
            self.known_styles() is Some,
    {
        match self {
            ElementData::Restyle(data) => data,
            _ => RestyleData {
                damage: self.pending_damage(),
                ..RestyleData::fresh(self.known_styles()->0)
            },
        }
    }

    /// The node once it is set up for restyle, which an unstyled node cannot be.
    pub open spec fn restyled(self) -> Self {
        if self.known_styles() is Some {
            ElementData::Restyle(self.restyle_data())
        } else {
            self
        }
    }

    /// The node once its styles have been consumed.
    pub open spec fn persisted(self) -> Self
        recommends
            self.known_styles() is Some,
    {
        ElementData::Persistent(self.known_styles()->0)
    }

    /// Whether the node waits for styles that come with the given damage: a new
    /// node for its first ones, which are a change from nothing, and a node being
    /// restyled for the ones that it is known to need, its snapshot expanded.
    pub open spec fn awaits(self, damage: RestyleDamage) -> bool {
        match self {
            ElementData::Initial(styles) => styles is None && damage == RestyleDamage::whole(),
            ElementData::Restyle(data) => !data.is_current() && data.snapshot@ is None,
            ElementData::Persistent(_) => false,
        }
    }

    /// The node once styling has come up with new styles.
    pub open spec fn finished(self, styles: ElementStyles<R, V>, damage: RestyleDamage) -> Self {
        match self {
            ElementData::Restyle(data) => ElementData::Restyle(data.finished(styles, damage)),
            _ => self.with_styles(styles),
        }
    }

    /// Makes the data of a node: persistent if it has styles already, else initial.
    pub fn new(existing: Option<ElementStyles<R, V>>) -> (r: Self)
        ensures
            r == (match existing {
                Some(styles) => Self::Persistent(styles),
                None => Self::Initial(None),
            }),
    {
        if let Some(s) = existing {
            ElementData::Persistent(s)
        } else {
            ElementData::Initial(None)
        }
    }

    /// Whether the node is new.
    pub fn is_initial(&self) -> (r: bool)
        ensures
            r <==> self is Initial,
    {
        match *self {
            ElementData::Initial(_) => true,
            _ => false,
        }
    }

    /// Whether the node is new and has no styles.
    pub fn is_unstyled_initial(&self) -> (r: bool)
        ensures
            r <==> self.known_styles() is None,
            r <==> *self == Self::Initial(None),
    {
        match *self {
            ElementData::Initial(None) => true,
            _ => false,
        }
    }

    /// Whether the node is new and has styles.
    pub fn is_styled_initial(&self) -> (r: bool)
        ensures
            r <==> self is Initial && self.known_styles() is Some,
            r <==> (*self matches ElementData::Initial(styles) && styles is Some),
    {
        match *self {
            ElementData::Initial(Some(_)) => true,
            _ => false,
        }
    }

    /// Whether the node is being restyled.
    pub fn is_restyle(&self) -> (r: bool)
        ensures
            r <==> self is Restyle,
    {
        match *self {
            ElementData::Restyle(_) => true,
            _ => false,
        }
    }

    /// The data of the restyle under way, if there is one.
    pub fn as_restyle(&self) -> (r: Option<&RestyleData<R, V, S>>)
        ensures
            r is Some <==> self is Restyle,
            r matches Some(data) ==> *self == Self::Restyle(*data),
    {
        match *self {
            ElementData::Restyle(ref x) => Some(x),
            _ => None,
        }
    }

    /// The data of the restyle under way, if there is one, for changing it.
    pub fn as_restyle_mut(&mut self) -> (r: Option<&mut RestyleData<R, V, S>>)
        ensures
            match *old(self) {
                ElementData::Restyle(data) => {
                    &&& r is Some
                    &&& *(r->0) == data
                    &&& *final(self) == ElementData::Restyle(*final(r->0))
                },
                _ => r is None && *final(self) == *old(self),
            },
    {
        match *self {
            ElementData::Restyle(ref mut x) => Some(x),
            _ => None,
        }
    }

    /// Whether the node has styles and no change to them is under way.
    pub fn is_persistent(&self) -> (r: bool)
        ensures
            r <==> self is Persistent,
    {
        match *self {
            ElementData::Persistent(_) => true,
            _ => false,
        }
    }

    /// Sets an element up for restyle, returning None for an unstyled element.
    pub fn restyle(&mut self) -> (r: Option<&mut RestyleData<R, V, S>>)
        ensures
            r is Some <==> old(self).known_styles() is Some,
            match *old(self) {
                ElementData::Initial(None) => r is None,
                ElementData::Initial(Some(styles)) | ElementData::Persistent(styles) => {
                    &&& r is Some
                    &&& r->0.styles == styles
                    &&& !r->0.hint.restyle_self
                    &&& r->0.hint.descendants is Empty
                    &&& !r->0.recascade
                    &&& r->0.damage.bits == if *old(self) is Initial {
                        crate::damage::REBUILD | crate::damage::REFLOW
                    } else {
                        0
                    }
                    &&& r->0.snapshot@ is None
                    &&& r->0.snapshot.held() is None
                },
                ElementData::Restyle(data) => r is Some && *(r->0) == data,
            },
            match r {
                Some(data) => {
                    &&& *data == old(self).restyle_data()
                    &&& *old(self) !is Restyle ==> data.snapshot@ is None
                    &&& *final(self) == ElementData::Restyle(*final(data))
                },
                None => *final(self) == *old(self),
            },
    {
        if self.is_unstyled_initial() {
            return None;
        }

        // If the caller never consumed the initial style, make sure that the
        // change hint represents the delta from zero, rather than a delta from
        // a previous style that was never observed. Ideally this shouldn't
        // happen, but we handle it for robustness' sake.
        let damage_override = if self.is_styled_initial() {
            RestyleDamage::rebuild_and_reflow()
        } else {
            RestyleDamage::empty()
        };

        if !self.is_restyle() {
            // Play some tricks to reshape the enum without cloning ElementStyles.
            let mut old_data = ElementData::new(None);
            std::mem::swap(self, &mut old_data);
            let styles = match old_data {
                ElementData::Initial(Some(s)) => s,
                ElementData::Persistent(s) => s,
                _ => unreached(),
            };
            *self = ElementData::Restyle(RestyleData::new(styles));
        }

        let restyle = self.as_restyle_mut().unwrap();
        proof {
            crate::damage::law_empty_damage_is_neutral(restyle.damage);
            crate::damage::law_empty_damage_is_neutral(damage_override);
        }
        restyle.damage = restyle.damage | damage_override;
        Some(restyle)
    }

    /// Converts Initial and Restyle to Persistent. No-op for Persistent.
    pub fn persist(&mut self)
        requires
            old(self).known_styles() is Some,
        ensures
            *final(self) == old(self).persisted(),
            match *old(self) {
                ElementData::Initial(styles) => *final(self) == ElementData::<R, V, S>::Persistent(
                    styles->0,
                ),
                ElementData::Restyle(data) => *final(self) == ElementData::<R, V, S>::Persistent(
                    data.styles,
                ),
                ElementData::Persistent(styles) => *final(self) == *old(self),
            },
            *old(self) is Persistent ==> *final(self) == *old(self),
    {
        if self.is_persistent() {
            return;
        }

        // Play some tricks to reshape the enum without cloning ElementStyles.
        let mut old_data = ElementData::new(None);
        std::mem::swap(self, &mut old_data);
        let styles = match old_data {
            ElementData::Initial(i) => i.unwrap(),
            ElementData::Restyle(r) => r.styles,
            ElementData::Persistent(_) => unreached(),
        };
        *self = ElementData::Persistent(styles);
    }

    /// The work that the node leaves to layout. The node must have current styles.
    pub fn damage(&self) -> (r: RestyleDamage)
        requires
            self.is_current(),
        ensures
            r == self.pending_damage(),
            match *self {
                ElementData::Initial(_) => r.bits == crate::damage::REBUILD
                    | crate::damage::REFLOW,
                ElementData::Restyle(data) => r == data.damage,
                ElementData::Persistent(_) => r.bits == 0,
            },
    {
        match *self {
            ElementData::Initial(_) => RestyleDamage::rebuild_and_reflow(),
            ElementData::Restyle(ref r) => r.damage,
            ElementData::Persistent(_) => RestyleDamage::empty(),
        }
    }

    /// A version of `damage` for any node, to be more robust in corner-cases. What
    /// is wrong with a node without current styles, `damage_warning` says.
    pub fn damage_sloppy(&self) -> (r: RestyleDamage)
        ensures
            r == self.pending_damage(),
            match *self {
                ElementData::Initial(_) => r.bits == crate::damage::REBUILD
                    | crate::damage::REFLOW,
                ElementData::Restyle(data) => r == data.damage,
                ElementData::Persistent(_) => r.bits == 0,
            },
    {
        match *self {
            ElementData::Initial(_) => RestyleDamage::rebuild_and_reflow(),
            ElementData::Restyle(ref r) => r.damage,
            ElementData::Persistent(_) => RestyleDamage::empty(),
        }
    }

    /// The error to log when `damage_sloppy` is called on this node, if any.
    pub fn damage_warning(&self) -> (r: Option<&'static str>)
        ensures
            r is None <==> self.is_current(),
            match *self {
                ElementData::Initial(styles) => r is None <==> styles is Some,
                ElementData::Restyle(data) => r is None <==> !data.hint.restyle_self
                    && !data.recascade && data.snapshot@ is None,
                ElementData::Persistent(_) => r is None,
            },
            r matches Some(message) ==> message@ == (if self is Initial {
                "Accessing damage on unstyled element"@
            } else {
                "Accessing damage on dirty element"@
            }),
    {
        match *self {
            ElementData::Initial(ref s) => {
                if s.is_none() {
                    return Some("Accessing damage on unstyled element");
                }
            },
            ElementData::Restyle(ref r) => {
                if !r.has_current_styles() {
                    return Some("Accessing damage on dirty element");
                }
            },
            ElementData::Persistent(_) => {},
        }
        None
    }

    /// Returns true if this element's style is up-to-date and has no potential
    /// invalidation.
    pub fn has_current_styles(&self) -> (r: bool)
        ensures
            r == self.is_current(),
            match *self {
                ElementData::Initial(styles) => r <==> styles is Some,
                ElementData::Restyle(data) => r <==> !data.hint.restyle_self && !data.recascade
                    && data.snapshot@ is None,
                ElementData::Persistent(_) => r,
            },
    {
        match *self {
            ElementData::Initial(ref x) => x.is_some(),
            ElementData::Restyle(ref x) => x.has_current_styles(),
            ElementData::Persistent(_) => true,
        }
    }

    /// The latest styles, if the node has any.
    pub fn get_styles(&self) -> (r: Option<&ElementStyles<R, V>>)
        ensures
            r is Some <==> self.known_styles() is Some,
            r matches Some(styles) ==> self.known_styles() == Some(*styles),
            match *self {
                ElementData::Initial(None) => r is None,
                ElementData::Initial(Some(styles)) => r is Some && *(r->0) == styles,
                ElementData::Restyle(data) => r is Some && *(r->0) == data.styles,
                ElementData::Persistent(styles) => r is Some && *(r->0) == styles,
            },
    {
        match *self {
            ElementData::Initial(ref x) => x.as_ref(),
            ElementData::Restyle(ref x) => Some(x.styles()),
            ElementData::Persistent(ref x) => Some(x),
        }
    }

    /// The latest styles. The node must have some.
    pub fn styles(&self) -> (r: &ElementStyles<R, V>)
        requires
            self.known_styles() is Some,
        ensures
            self.known_styles() == Some(*r),
            match *self {
                ElementData::Initial(styles) => styles == Some(*r),
                ElementData::Restyle(data) => *r == data.styles,
                ElementData::Persistent(styles) => *r == styles,
            },
    {
        self.get_styles().expect("Calling styles() on unstyled ElementData")
    }

    /// The latest styles, if the node has any, for changing them.
    pub fn get_styles_mut(&mut self) -> (r: Option<&mut ElementStyles<R, V>>)
        ensures
            r is Some <==> old(self).known_styles() is Some,
            match *old(self) {
                ElementData::Initial(None) => r is None,
                ElementData::Initial(Some(styles)) => {
                    &&& r is Some
                    &&& *(r->0) == styles
                    &&& *final(self) == ElementData::<R, V, S>::Initial(Some(*final(r->0)))
                },
                ElementData::Restyle(data) => {
                    &&& r is Some
                    &&& *(r->0) == data.styles
                    &&& *final(self) == ElementData::Restyle(
                        (RestyleData { styles: *final(r->0), ..data }),
                    )
                },
                ElementData::Persistent(styles) => {
                    &&& r is Some
                    &&& *(r->0) == styles
                    &&& *final(self) == ElementData::<R, V, S>::Persistent(*final(r->0))
                },
            },
            match r {
                Some(styles) => {
                    &&& old(self).known_styles() == Some(*styles)
                    &&& *final(self) == old(self).with_styles(*final(styles))
                },
                None => *final(self) == *old(self),
            },
    {
        match *self {
            ElementData::Initial(ref mut x) => x.as_mut(),
            ElementData::Restyle(ref mut x) => Some(x.styles_mut()),
            ElementData::Persistent(ref mut x) => Some(x),
        }
    }

    /// The latest styles, for changing them. The node must have some.
    pub fn styles_mut(&mut self) -> (r: &mut ElementStyles<R, V>)
        requires
            old(self).known_styles() is Some,
        ensures
            old(self).known_styles() == Some(*r),
            *final(self) == old(self).with_styles(*final(r)),
            match *old(self) {
                ElementData::Initial(styles) => {
                    &&& styles == Some(*r)
                    &&& *final(self) == ElementData::<R, V, S>::Initial(Some(*final(r)))
                },
                ElementData::Restyle(data) => {
                    &&& *r == data.styles
                    &&& *final(self) == ElementData::Restyle(
                        (RestyleData { styles: *final(r), ..data }),
                    )
                },
                ElementData::Persistent(styles) => {
                    &&& *r == styles
                    &&& *final(self) == ElementData::<R, V, S>::Persistent(*final(r))
                },
            },
    {
        self.get_styles_mut().expect("Calling styles_mut() on unstyled ElementData")
    }

    /// Takes in the outcome of styling the node, which must have been waiting for it.
    pub fn finish_styling(&mut self, styles: ElementStyles<R, V>, damage: RestyleDamage)
        requires
            old(self).awaits(damage),
        ensures
            *final(self) == old(self).finished(styles, damage),
            match *old(self) {
                ElementData::Initial(_) => *final(self) == ElementData::<R, V, S>::Initial(
                    Some(styles),
                ),
                ElementData::Restyle(before) => *final(self) matches ElementData::Restyle(after)
                    && after.styles == styles && after.hint == before.hint && after.recascade
                    == before.recascade && after.damage.bits == before.damage.bits | damage.bits
                    && after.snapshot == before.snapshot,
                ElementData::Persistent(_) => *final(self) == *old(self),
            },
    {
        match *self {
            ElementData::Initial(ref mut x) => {
                *x = Some(styles);
            },
            ElementData::Restyle(ref mut x) => x.finish_styling(styles, damage),
            ElementData::Persistent(_) => unreached(),
        }
    }
}

/// The latest styles of a node are the first ones of a new node, the ones in the
/// restyle data of a node being restyled, and those of a persistent node.
pub proof fn law_where_the_styles_are<R, V, S>(
    first: Option<ElementStyles<R, V>>,
    data: RestyleData<R, V, S>,
    styles: ElementStyles<R, V>,
)
    ensures
        ElementData::<R, V, S>::Initial(first).known_styles() == first,
        ElementData::Restyle(data).known_styles() == Some(data.styles),
        ElementData::<R, V, S>::Persistent(styles).known_styles() == Some(styles),
{
}

/// Setting other styles never changes the state a node is in: a new node stays
/// new, a persistent one persistent, and of a restyle under way all but the styles
/// stays as it is.
pub proof fn law_setting_styles_keeps_the_state<R, V, S>(
    first: Option<ElementStyles<R, V>>,
    data: RestyleData<R, V, S>,
    earlier: ElementStyles<R, V>,
    styles: ElementStyles<R, V>,
)
    ensures
        ElementData::<R, V, S>::Initial(first).with_styles(styles) == ElementData::<
            R,
            V,
            S,
        >::Initial(Some(styles)),
        ElementData::<R, V, S>::Persistent(earlier).with_styles(styles) == ElementData::<
            R,
            V,
            S,
        >::Persistent(styles),
        ElementData::Restyle(data).with_styles(styles) matches ElementData::Restyle(after)
            && after.styles == styles && after.hint == data.hint && after.recascade
            == data.recascade && after.damage == data.damage && after.snapshot == data.snapshot,
{
}

/// The styles of a new node are current once there are some, those of a persistent
/// node always. Those of a node being restyled are not while the hint concerns the
/// element, a cascade is due, or a snapshot is in sight.
pub proof fn law_when_styles_are_current<R, V, S>(
    first: Option<ElementStyles<R, V>>,
    data: RestyleData<R, V, S>,
    styles: ElementStyles<R, V>,
)
    ensures
        ElementData::<R, V, S>::Initial(first).is_current() <==> first is Some,
        ElementData::<R, V, S>::Persistent(styles).is_current(),
        data.hint.restyle_self ==> !ElementData::Restyle(data).is_current(),
        data.recascade ==> !ElementData::Restyle(data).is_current(),
        data.snapshot@ is Some ==> !ElementData::Restyle(data).is_current(),
        !ElementData::Restyle(data).is_current() ==> data.hint.restyle_self || data.recascade
            || data.snapshot@ is Some,
{
}

/// The damage of a node being restyled is the one that its restyle data has, bit
/// for bit, whether its styles are current or not. A new node leaves everything to
/// layout, and a persistent one nothing.
pub proof fn law_where_the_damage_is<R, V, S>(
    first: Option<ElementStyles<R, V>>,
    data: RestyleData<R, V, S>,
    styles: ElementStyles<R, V>,
)
    ensures
        ElementData::Restyle(data).pending_damage() == data.damage,
        ElementData::<R, V, S>::Initial(first).pending_damage().bits == crate::damage::REBUILD
            | crate::damage::REFLOW,
        ElementData::<R, V, S>::Persistent(styles).pending_damage().bits == 0,
{
}

/// Two nodes being restyled with the same damage report the same damage, whatever
/// else is known of them.
pub proof fn law_damage_ignores_the_rest<R, V, S>(
    a: RestyleData<R, V, S>,
    b: RestyleData<R, V, S>,
)
    requires
        a.damage == b.damage,
    ensures
        ElementData::Restyle(a).pending_damage() == ElementData::Restyle(b).pending_damage(),
{
}

/// A restyle under way is taken up as it is: styles, hint, recascade bit, damage and
/// snapshot are what they were.
pub proof fn law_restyle_under_way_is_kept_whole<R, V, S>(data: RestyleData<R, V, S>)
    ensures
        ElementData::Restyle(data).restyle_data() == data,
        ElementData::Restyle(data).restyled() == ElementData::Restyle(data),
{
}

/// A restyle that starts from existing styles begins with nothing to do: no hint, no
/// cascade and no snapshot. Only its damage tells a new node from a persistent one.
pub proof fn law_restyle_starts_with_nothing_to_do<R, V, S>(data: ElementData<R, V, S>)
    requires
        data.known_styles() is Some,
        data !is Restyle,
    ensures
        Some(data.restyle_data().styles) == data.known_styles(),
        !data.restyle_data().hint.restyle_self,
        data.restyle_data().hint.descendants is Empty,
        !data.restyle_data().recascade,
        data.restyle_data().snapshot@ is None,
        data.restyle_data().snapshot.held() is None,
        data is Initial ==> data.restyle_data().damage.bits == crate::damage::REBUILD
            | crate::damage::REFLOW,
        data is Persistent ==> data.restyle_data().damage.bits == 0,
        data.restyled() == ElementData::Restyle(data.restyle_data()),
{
    crate::restyle::law_fresh_data_is_current::<R, V, S>(data.known_styles()->0);
}

/// An unstyled node cannot be set up for restyle: it stays as it is.
pub proof fn law_unstyled_is_not_restyled<R, V, S>()
    ensures
        ElementData::<R, V, S>::Initial(None).restyled() == ElementData::<R, V, S>::Initial(None),
{
}

/// Persisting keeps the latest styles and nothing else of a node.
pub proof fn law_persist_keeps_the_latest_styles<R, V, S>(
    data: RestyleData<R, V, S>,
    styles: ElementStyles<R, V>,
)
    ensures
        ElementData::<R, V, S>::Initial(Some(styles)).persisted() == ElementData::<
            R,
            V,
            S,
        >::Persistent(styles),
        ElementData::Restyle(data).persisted() == ElementData::<R, V, S>::Persistent(data.styles),
        ElementData::<R, V, S>::Persistent(styles).persisted() == ElementData::<
            R,
            V,
            S,
        >::Persistent(styles),
{
}

/// A new node waits for its first styles, with the damage of a change from nothing,
/// and only once. A node being restyled waits while its element has to be restyled
/// or cascaded again and no snapshot is in sight, for any damage. A persistent node
/// never waits.
pub proof fn law_who_waits_for_styles<R, V, S>(
    first: Option<ElementStyles<R, V>>,
    data: RestyleData<R, V, S>,
    styles: ElementStyles<R, V>,
    damage: RestyleDamage,
)
    ensures
        ElementData::<R, V, S>::Initial(first).awaits(damage) <==> first is None && damage.bits
            == crate::damage::REBUILD | crate::damage::REFLOW,
        ElementData::Restyle(data).awaits(damage) <==> (data.hint.restyle_self || data.recascade)
            && data.snapshot@ is None,
        !ElementData::<R, V, S>::Persistent(styles).awaits(damage),
{
}

/// Finishing a node that is being restyled leaves it so, with the new styles and
/// the new damage added to its own. The hint, at every depth, the recascade bit and
/// the snapshot are what they were, for the traversal to propagate and clear.
pub proof fn law_finishing_leaves_the_restyle_under_way<R, V, S>(
    data: RestyleData<R, V, S>,
    styles: ElementStyles<R, V>,
    damage: RestyleDamage,
)
    ensures
        ElementData::Restyle(data).finished(styles, damage) matches ElementData::Restyle(after)
            && after.styles == styles && after.hint == data.hint && after.recascade
            == data.recascade && after.damage.bits == data.damage.bits | damage.bits
            && after.snapshot == data.snapshot,
{
}

/// Finishing a new node gives it its first styles and leaves it new.
pub proof fn law_finishing_a_new_node<R, V, S>(
    first: Option<ElementStyles<R, V>>,
    styles: ElementStyles<R, V>,
    damage: RestyleDamage,
)
    ensures
        ElementData::<R, V, S>::Initial(first).finished(styles, damage) == ElementData::<
            R,
            V,
            S,
        >::Initial(Some(styles)),
{
}

/// Setting a styled node up for restyle keeps its styles, the work that it leaves
/// to layout, and whether its styles are current. Doing so again changes nothing.
pub proof fn law_restyle_keeps_styles_and_damage<R, V, S>(data: ElementData<R, V, S>)
    requires
        data.known_styles() is Some,
    ensures
        data.restyled() is Restyle,
        data.restyled().known_styles() == data.known_styles(),
        data.restyled().pending_damage() == data.pending_damage(),
        data.restyled().is_current() == data.is_current(),
        data.restyled().restyled() == data.restyled(),
{
    crate::restyle::law_fresh_data_is_current::<R, V, S>(data.known_styles()->0);
}

/// The damage of a restyle is the delta from the styles that were last observed:
/// everything if the first styles never were, nothing if the node was persistent.
pub proof fn law_restyle_damage_is_delta_from_observed<R, V, S>(styles: ElementStyles<R, V>)
    ensures
        ElementData::<R, V, S>::Initial(Some(styles)).restyle_data().damage
            == RestyleDamage::whole(),
        ElementData::<R, V, S>::Persistent(styles).restyle_data().damage == RestyleDamage::none(),
        ElementData::<R, V, S>::Persistent(styles).restyle_data() == RestyleData::<
            R,
            V,
            S,
        >::fresh(styles),
{
}

/// Persisting a styled node keeps its styles, which are current from then on and
/// leave no work to layout. Doing so again changes nothing, and a restyle begun
/// just before makes no difference.
pub proof fn law_persist_settles<R, V, S>(data: ElementData<R, V, S>)
    requires
        data.known_styles() is Some,
    ensures
        data.persisted() is Persistent,
        data.persisted().known_styles() == data.known_styles(),
        data.persisted().is_current(),
        data.persisted().pending_damage() == RestyleDamage::none(),
        data.persisted().persisted() == data.persisted(),
        data.restyled().persisted() == data.persisted(),
{
}

/// A node that has styles never loses them.
pub proof fn law_styled_stays_styled<R, V, S>(
    data: ElementData<R, V, S>,
    styles: ElementStyles<R, V>,
    damage: RestyleDamage,
)
    requires
        data.known_styles() is Some,
    ensures
        data.restyled().known_styles() is Some,
        data.persisted().known_styles() is Some,
        data.with_styles(styles).known_styles() is Some,
        data.finished(styles, damage).known_styles() is Some,
{
}

/// A node is unstyled exactly if it is new and has no styles; it is then not
/// current, and a node whose styles are current has styles.
pub proof fn law_only_new_nodes_are_unstyled<R, V, S>(data: ElementData<R, V, S>)
    ensures
        data.known_styles() is None <==> data == ElementData::<R, V, S>::Initial(None),
        data.is_current() ==> data.known_styles() is Some,
{
}

/// Changing the styles in place sets the styles and nothing else: damage and
/// currency stay as they were, and putting the same styles back changes nothing.
pub proof fn law_styles_are_set_in_place<R, V, S>(
    data: ElementData<R, V, S>,
    styles: ElementStyles<R, V>,
)
    requires
        data.known_styles() is Some,
    ensures
        data.with_styles(styles).known_styles() == Some(styles),
        data.with_styles(styles).pending_damage() == data.pending_damage(),
        data.with_styles(styles).is_current() == data.is_current(),
        data.with_styles(data.known_styles()->0) == data,
{
}

/// Finishing gives a node the new styles, and the damage handed in is part of what
/// it leaves to layout, together with what it left before. First styles are
/// current at once.
pub proof fn law_finishing_takes_styles_and_damage<R, V, S>(
    data: ElementData<R, V, S>,
    styles: ElementStyles<R, V>,
    damage: RestyleDamage,
)
    requires
        data.awaits(damage),
    ensures
        data.finished(styles, damage).known_styles() == Some(styles),
        data.finished(styles, damage).pending_damage() == data.pending_damage().joined(damage),
        data.finished(styles, damage).pending_damage().includes(damage),
        data.finished(styles, damage).is_current() <==> data is Initial,
{
    crate::damage::law_damage_accumulates(data.pending_damage(), damage, damage);
    if data is Initial {
        crate::damage::law_damage_accumulates(RestyleDamage::none(), damage, damage);
        crate::damage::law_empty_damage_is_neutral(damage);
    }
}

} // verus!
