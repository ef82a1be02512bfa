use style_data::hints::{DescendantRestyleHint, RestyleHint, StoredRestyleHint};

fn hint(restyle_self: bool, descendants: DescendantRestyleHint) -> StoredRestyleHint {
    StoredRestyleHint { restyle_self, descendants }
}

fn same(a: &StoredRestyleHint, b: &StoredRestyleHint) -> bool {
    a.restyle_self == b.restyle_self && a.descendants == b.descendants
}

fn all_hints() -> Vec<StoredRestyleHint> {
    let mut hints = Vec::new();
    for restyle_self in [false, true] {
        for descendants in [
            DescendantRestyleHint::Empty,
            DescendantRestyleHint::Children,
            DescendantRestyleHint::Descendants,
        ] {
            hints.push(hint(restyle_self, descendants));
        }
    }
    hints
}

fn insert(a: &StoredRestyleHint, b: &StoredRestyleHint) -> StoredRestyleHint {
    let mut r = a.clone();
    r.insert(b);
    r
}

#[test]
fn empty_default_and_subtree() {
    let empty = StoredRestyleHint::empty();
    assert!(!empty.restyle_self);
    assert_eq!(empty.descendants, DescendantRestyleHint::Empty);
    assert!(empty.is_empty());
    assert!(same(&empty, &StoredRestyleHint::default()));

    let subtree = StoredRestyleHint::subtree();
    assert!(subtree.restyle_self);
    assert_eq!(subtree.descendants, DescendantRestyleHint::Descendants);
    assert!(!subtree.is_empty());
}

#[test]
fn only_the_empty_hint_is_empty() {
    for h in all_hints() {
        assert_eq!(h.is_empty(), same(&h, &StoredRestyleHint::empty()));
    }
}

#[test]
fn propagation_to_children() {
    for restyle_self in [false, true] {
        let h = hint(restyle_self, DescendantRestyleHint::Empty).propagate();
        assert!(same(&h, &StoredRestyleHint::empty()));
        let h = hint(restyle_self, DescendantRestyleHint::Children).propagate();
        assert!(same(&h, &hint(true, DescendantRestyleHint::Empty)));
        let h = hint(restyle_self, DescendantRestyleHint::Descendants).propagate();
        assert!(same(&h, &StoredRestyleHint::subtree()));
    }
}

#[test]
fn propagation_follows_depth() {
    let mut children = hint(false, DescendantRestyleHint::Children);
    let mut descendants = hint(false, DescendantRestyleHint::Descendants);
    for depth in 1..5 {
        children = children.propagate();
        descendants = descendants.propagate();
        assert_eq!(children.restyle_self, depth == 1);
        assert!(descendants.restyle_self);
    }
    assert!(children.is_empty());
}

#[test]
fn insertion_takes_the_stronger_requirement() {
    let mut h = hint(false, DescendantRestyleHint::Children);
    h.insert(&hint(true, DescendantRestyleHint::Empty));
    assert!(same(&h, &hint(true, DescendantRestyleHint::Children)));
    h.insert(&hint(false, DescendantRestyleHint::Descendants));
    assert!(same(&h, &StoredRestyleHint::subtree()));
    h.insert(&hint(false, DescendantRestyleHint::Children));
    assert!(same(&h, &StoredRestyleHint::subtree()));
}

#[test]
fn union_of_requirements_is_the_larger() {
    let ordered = [
        DescendantRestyleHint::Empty,
        DescendantRestyleHint::Children,
        DescendantRestyleHint::Descendants,
    ];
    for i in 0..3 {
        for j in 0..3 {
            let joined = insert(&hint(false, ordered[i]), &hint(false, ordered[j]));
            assert!(!joined.restyle_self);
            assert_eq!(joined.descendants, ordered[i.max(j)]);
        }
    }
}

#[test]
fn insertion_laws() {
    for a in all_hints() {
        assert!(same(&insert(&a, &StoredRestyleHint::empty()), &a));
        assert!(same(
            &insert(&a, &StoredRestyleHint::subtree()),
            &StoredRestyleHint::subtree()
        ));
        for b in all_hints() {
            assert!(same(&insert(&a, &b), &insert(&b, &a)));
            assert!(same(&insert(&insert(&a, &b), &b), &insert(&a, &b)));
            assert!(same(
                &insert(&a, &b).propagate(),
                &insert(&a.propagate(), &b.propagate())
            ));
            for c in all_hints() {
                assert!(same(
                    &insert(&insert(&a, &b), &c),
                    &insert(&a, &insert(&b, &c))
                ));
            }
        }
    }
}

#[test]
fn conversion_of_directives() {
    for restyle_self in [false, true] {
        for restyle_descendants in [false, true] {
            let stored = StoredRestyleHint::from(RestyleHint {
                restyle_self,
                restyle_descendants,
                restyle_later_siblings: false,
            });
            assert_eq!(stored.restyle_self, restyle_self);
            let expected = if restyle_descendants {
                DescendantRestyleHint::Descendants
            } else {
                DescendantRestyleHint::Empty
            };
            assert_eq!(stored.descendants, expected);
        }
    }
}
