//! A snapshot of an element's earlier state, whose drop can be put off.

use std::ops::Deref;
use vstd::prelude::*;

verus! {

/// An optional snapshot of type `S`. Destroying it takes it out of sight at once
/// but leaves the value in place, so that it is not dropped by a thread that may
/// not drop it.
#[derive(Debug)]
pub struct SnapshotOption<S> {
    snapshot: Option<S>,
    destroyed: bool,
}

/// What can be seen of the snapshot.
impl<S> View for SnapshotOption<S> {
    type V = Option<S>;

    open spec fn view(&self) -> Option<S> {
        if self.is_destroyed() {
            None
        } else {
            self.held()
        }
    }
}

impl<S> SnapshotOption<S> {
    /// The value that is kept alive, seen or not.
    pub closed spec fn held(self) -> Option<S> {
        self.snapshot
    }

    /// Whether the value that is held is out of sight.
    pub closed spec fn is_destroyed(self) -> bool {
        self.destroyed
    }

    /// The option that holds nothing.
    pub closed spec fn vacant() -> Self {
        SnapshotOption { snapshot: None, destroyed: false }
    }

    /// The option that holds `snapshot` in sight.
    pub closed spec fn showing(snapshot: S) -> Self {
        SnapshotOption { snapshot: Some(snapshot), destroyed: false }
    }

    /// This option once its snapshot has been destroyed.
    pub closed spec fn gone(self) -> Self {
        SnapshotOption { snapshot: self.snapshot, destroyed: true }
    }

    /// Makes an option that holds nothing.
    pub fn empty() -> (r: Self)
        ensures
            r == Self::vacant(),
            r@ is None,
            r.held() is None,
            !r.is_destroyed(),
    {
        SnapshotOption { snapshot: None, destroyed: false }
    }

    /// Takes the snapshot out of sight. The value itself stays where it is and is
    /// dropped later.
    pub fn destroy(&mut self)
        ensures
            *final(self) == old(self).gone(),
            final(self)@ is None,
            final(self).held() == old(self).held(),
            final(self).is_destroyed(),
    {
        self.destroyed = true;
    }

    /// Returns the snapshot, and has `create` make one first if there is none to
    /// be seen. May run on the layout thread only, since it can drop a snapshot.
    pub fn ensure<F: FnOnce() -> S>(&mut self, create: F) -> (r: &mut S)
        requires
            old(self)@ is None ==> create.requires(()),
        ensures
            match old(self)@ {
                Some(snapshot) => *r == snapshot,
                None => create.ensures((), *r),
            },
            *final(self) == Self::showing(*final(r)),
            final(self).held() == Some(*final(r)),
            !final(self).is_destroyed(),
    {
        if (*self).deref().is_none() {
            self.snapshot = Some(create());
            self.destroyed = false;
        }
        self.snapshot.as_mut().unwrap()
    }
}

impl<S> Deref for SnapshotOption<S> {
    type Target = Option<S>;

    fn deref(&self) -> (r: &Option<S>)
        ensures
            *r == self@,
            self.is_destroyed() ==> *r is None,
            !self.is_destroyed() ==> *r == self.held(),
    {
        if self.destroyed {
            &None
        } else {
            &self.snapshot
        }
    }
}

/// An option is determined by the value that it holds and by whether that value
/// is out of sight.
pub proof fn law_snapshot_is_its_state<S>(a: SnapshotOption<S>, b: SnapshotOption<S>)
    requires
        a.held() == b.held(),
        a.is_destroyed() == b.is_destroyed(),
    ensures
        a == b,
{
}

/// Exactly the value that is held and was not destroyed is seen.
pub proof fn law_what_is_seen<S>(option: SnapshotOption<S>)
    ensures
        option.is_destroyed() ==> option@ is None,
        !option.is_destroyed() ==> option@ == option.held(),
{
}

/// An option that shows a snapshot is one that the snapshot was put in; one that
/// shows nothing is empty or has been destroyed.
pub proof fn law_options_are_empty_showing_or_destroyed<S>(option: SnapshotOption<S>)
    ensures
        option@ matches Some(snapshot) ==> option == SnapshotOption::showing(snapshot),
        option@ is None ==> option == SnapshotOption::<S>::vacant() || option == option.gone(),
{
}

/// An empty option shows nothing and holds nothing.
pub proof fn law_empty_shows_nothing<S>()
    ensures
        SnapshotOption::<S>::vacant()@ is None,
        SnapshotOption::<S>::vacant().held() is None,
        !SnapshotOption::<S>::vacant().is_destroyed(),
{
}

/// A snapshot that was put in is seen until it is destroyed, and held even then.
pub proof fn law_snapshot_is_seen_until_destroyed<S>(snapshot: S)
    ensures
        SnapshotOption::showing(snapshot)@ == Some(snapshot),
        SnapshotOption::showing(snapshot).held() == Some(snapshot),
        !SnapshotOption::showing(snapshot).is_destroyed(),
        SnapshotOption::showing(snapshot).gone()@ is None,
        SnapshotOption::showing(snapshot).gone().held() == Some(snapshot),
{
}

/// An option that was destroyed shows nothing but still holds what it held.
/// Destroying twice is the same as destroying once.
pub proof fn law_destroying_hides_and_keeps<S>(option: SnapshotOption<S>)
    ensures
        option.gone()@ is None,
        option.gone().is_destroyed(),
        option.gone().held() == option.held(),
        option.gone().gone() == option.gone(),
{
}

} // verus!
