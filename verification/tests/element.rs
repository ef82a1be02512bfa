use std::sync::Arc;
use style_data::damage::RestyleDamage;
use style_data::element::ElementData;
use style_data::hints::{DescendantRestyleHint, RestyleHint, StoredRestyleHint};
use style_data::restyle::RestyleData;
use style_data::styles::{ComputedStyle, ComputedValues, Display, ElementStyles};

type Data = ElementData<u32, (), u32>;

fn styles(rules: u32) -> ElementStyles<u32, ()> {
    let values = Arc::new(ComputedValues { display: Display::Keyword(0), others: () });
    ElementStyles::new(ComputedStyle::new(rules, values))
}

fn directives(own: bool, descendants: bool, later_siblings: bool) -> RestyleHint {
    RestyleHint {
        restyle_self: own,
        restyle_descendants: descendants,
        restyle_later_siblings: later_siblings,
    }
}

fn unstyled() -> Data {
    ElementData::new(None)
}

fn styled_initial(rules: u32) -> Data {
    let mut data = unstyled();
    data.finish_styling(styles(rules), RestyleDamage::rebuild_and_reflow());
    data
}

fn persistent(rules: u32) -> Data {
    ElementData::new(Some(styles(rules)))
}

#[test]
fn new_data() {
    let data = unstyled();
    assert!(data.is_initial() && data.is_unstyled_initial() && !data.is_styled_initial());
    assert!(!data.is_restyle() && !data.is_persistent());
    assert!(!data.has_current_styles());
    assert!(data.get_styles().is_none());
    assert!(data.as_restyle().is_none());

    let data = persistent(3);
    assert!(data.is_persistent() && !data.is_initial() && !data.is_restyle());
    assert!(!data.is_unstyled_initial() && !data.is_styled_initial());
    assert!(data.has_current_styles());
    assert_eq!(data.styles().primary.rules, 3);
    assert_eq!(data.damage(), RestyleDamage::empty());
}

#[test]
fn first_styles() {
    let data = styled_initial(8);
    assert!(data.is_initial() && data.is_styled_initial() && !data.is_unstyled_initial());
    assert!(data.has_current_styles());
    assert_eq!(data.styles().primary.rules, 8);
    assert_eq!(data.damage(), RestyleDamage::rebuild_and_reflow());
}

#[test]
fn restyle_of_an_unstyled_element() {
    let mut data = unstyled();
    assert!(data.restyle().is_none());
    assert!(data.is_unstyled_initial());
    assert!(data.as_restyle_mut().is_none());
    assert!(data.get_styles_mut().is_none());
}

#[test]
fn restyle_of_styles_that_were_never_consumed() {
    let mut data = styled_initial(8);
    let restyle = data.restyle().unwrap();
    assert_eq!(restyle.damage, RestyleDamage::rebuild_and_reflow());
    assert_eq!(restyle.styles().primary.rules, 8);
    assert!(restyle.hint.is_empty() && !restyle.recascade);
    assert!(restyle.snapshot.is_none());
    assert!(data.is_restyle());
    assert!(data.has_current_styles());
    assert_eq!(data.damage(), RestyleDamage::rebuild_and_reflow());
}

#[test]
fn restyle_of_persistent_styles() {
    let mut data = persistent(8);
    let restyle = data.restyle().unwrap();
    assert_eq!(restyle.damage, RestyleDamage::empty());
    assert_eq!(restyle.styles().primary.rules, 8);
    assert!(restyle.has_current_styles());
    assert_eq!(data.damage(), RestyleDamage::empty());
}

#[test]
fn restyle_again_loses_nothing() {
    let mut data = persistent(8);
    {
        let restyle = data.restyle().unwrap();
        restyle.recascade = true;
        restyle.damage = RestyleDamage { bits: 0x40 };
        restyle.hint = StoredRestyleHint::subtree();
        restyle.snapshot.ensure(|| 12);
    }
    let restyle = data.restyle().unwrap();
    assert!(restyle.recascade);
    assert_eq!(restyle.damage, RestyleDamage { bits: 0x40 });
    assert!(restyle.hint.restyle_self);
    assert_eq!(*restyle.snapshot, Some(12));
    assert!(data.as_restyle().unwrap().recascade);
    data.as_restyle_mut().unwrap().recascade = false;
    assert!(!data.as_restyle().unwrap().recascade);
}

#[test]
fn persist_keeps_the_styles() {
    let mut data = styled_initial(8);
    data.persist();
    assert!(data.is_persistent());
    assert_eq!(data.styles().primary.rules, 8);

    data.restyle().unwrap().hint = StoredRestyleHint::subtree();
    assert!(!data.has_current_styles());
    data.persist();
    assert!(data.is_persistent());
    assert!(data.has_current_styles());
    assert_eq!(data.styles().primary.rules, 8);
    assert_eq!(data.damage(), RestyleDamage::empty());

    data.persist();
    assert!(data.is_persistent());
    assert_eq!(data.styles().primary.rules, 8);
}

#[test]
fn has_current_styles_while_restyling() {
    let mut data = persistent(8);
    let restyle = data.restyle().unwrap();
    assert!(restyle.has_current_styles());
    restyle.hint.restyle_self = true;
    assert!(!restyle.has_current_styles());
    restyle.hint.restyle_self = false;
    restyle.hint.descendants = DescendantRestyleHint::Descendants;
    assert!(restyle.has_current_styles());
    restyle.recascade = true;
    assert!(!restyle.has_current_styles());
    restyle.recascade = false;
    restyle.snapshot.ensure(|| 1);
    assert!(!restyle.has_current_styles());
    restyle.snapshot.destroy();
    assert!(restyle.has_current_styles());
}

#[test]
fn expanding_without_a_snapshot() {
    let mut data = persistent(8);
    let restyle = data.restyle().unwrap();
    assert!(!restyle.expand_snapshot(|_| panic!("there is no snapshot")));
    assert!(restyle.hint.is_empty());
}

#[test]
fn expanding_a_snapshot() {
    let mut data = persistent(8);
    let restyle = data.restyle().unwrap();
    restyle.snapshot.ensure(|| 33);
    restyle.hint.descendants = DescendantRestyleHint::Children;
    let later = restyle.expand_snapshot(|snapshot| {
        assert_eq!(*snapshot, 33);
        directives(true, false, true)
    });
    assert!(later);
    assert!(restyle.snapshot.is_none());
    assert!(restyle.hint.restyle_self);
    assert_eq!(restyle.hint.descendants, DescendantRestyleHint::Children);
    assert_eq!(restyle.styles().primary.rules, 8);
    assert_eq!(restyle.damage, RestyleDamage::empty());
    assert!(!restyle.expand_snapshot(|_| panic!("the snapshot is gone")));
}

#[test]
fn applying_hints() {
    let mut data = persistent(8);
    let restyle = data.restyle().unwrap();
    assert!(!restyle.apply_hint(directives(false, false, false)));
    assert!(restyle.hint.is_empty());
    assert!(restyle.apply_hint(directives(false, false, true)));
    assert!(restyle.hint.is_empty());
    assert!(!restyle.apply_hint(directives(false, true, false)));
    assert!(!restyle.hint.restyle_self);
    assert_eq!(restyle.hint.descendants, DescendantRestyleHint::Descendants);
    assert!(restyle.has_current_styles());
    assert!(!restyle.apply_hint(directives(true, false, false)));
    assert!(!restyle.has_current_styles());
}

#[test]
fn finishing_a_restyle() {
    let mut data = styled_initial(8);
    data.restyle().unwrap().hint = StoredRestyleHint::subtree();
    data.finish_styling(styles(9), RestyleDamage { bits: 0x40 });
    assert!(data.is_restyle());
    assert_eq!(data.styles().primary.rules, 9);
    assert!(!data.has_current_styles());
    assert_eq!(data.damage_sloppy(), RestyleDamage { bits: 0x43 });
    data.as_restyle_mut().unwrap().hint = StoredRestyleHint::empty();
    assert!(data.has_current_styles());
    assert_eq!(data.damage(), RestyleDamage { bits: 0x43 });
    data.persist();
    assert_eq!(data.styles().primary.rules, 9);
}

#[test]
fn sloppy_damage_and_its_warnings() {
    assert_eq!(unstyled().damage_sloppy(), RestyleDamage::rebuild_and_reflow());
    assert_eq!(
        unstyled().damage_warning(),
        Some("Accessing damage on unstyled element")
    );
    assert_eq!(styled_initial(8).damage_sloppy(), styled_initial(8).damage());
    assert_eq!(styled_initial(8).damage_warning(), None);
    assert_eq!(persistent(8).damage_sloppy(), RestyleDamage::empty());
    assert_eq!(persistent(8).damage_warning(), None);

    let mut data = persistent(8);
    data.restyle().unwrap().damage = RestyleDamage { bits: 0x80 };
    assert_eq!(data.damage_sloppy(), RestyleDamage { bits: 0x80 });
    assert_eq!(data.damage_warning(), None);
    data.restyle().unwrap().recascade = true;
    assert_eq!(data.damage_sloppy(), RestyleDamage { bits: 0x80 });
    assert_eq!(
        data.damage_warning(),
        Some("Accessing damage on dirty element")
    );
}

#[test]
fn styles_can_be_changed_in_place() {
    let mut data = styled_initial(8);
    data.styles_mut().primary.rules = 9;
    assert!(data.is_styled_initial());
    assert_eq!(data.styles().primary.rules, 9);

    let restyle: &mut RestyleData<u32, (), u32> = data.restyle().unwrap();
    restyle.styles_mut().primary.rules = 10;
    assert_eq!(data.get_styles().unwrap().primary.rules, 10);
    data.get_styles_mut().unwrap().primary.rules = 11;
    assert!(data.is_restyle());
    assert_eq!(data.damage(), RestyleDamage::rebuild_and_reflow());

    data.persist();
    data.styles_mut().primary.rules = 12;
    assert!(data.is_persistent());
    assert_eq!(data.styles().primary.rules, 12);
}
