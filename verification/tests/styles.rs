use std::sync::Arc;
use style_data::damage::{RestyleDamage, REBUILD, REFLOW};
use style_data::styles::{ComputedStyle, ComputedValues, Display, ElementStyles, PseudoStyles};

fn style(rules: u32, display: Display) -> ComputedStyle<u32, &'static str> {
    ComputedStyle::new(rules, Arc::new(ComputedValues { display, others: "rest" }))
}

#[test]
fn computed_style_keeps_its_parts() {
    let values = Arc::new(ComputedValues { display: Display::Keyword(4), others: "rest" });
    let style = ComputedStyle::new(17u32, values.clone());
    assert_eq!(style.rules, 17);
    assert!(Arc::ptr_eq(&style.values, &values));
    let copy = style.clone();
    assert_eq!(copy.rules, 17);
    assert!(Arc::ptr_eq(&copy.values, &values));
}

#[test]
fn debug_text_leaves_the_values_out() {
    assert_eq!(
        ComputedStyle::<u32, ()>::debug_text("RuleNode(3)"),
        "ComputedStyle { rules: RuleNode(3), values: {..} }"
    );
    assert_eq!(
        ComputedStyle::<u32, ()>::debug_text(""),
        "ComputedStyle { rules: , values: {..} }"
    );
}

#[test]
fn pseudo_styles_are_a_map() {
    let mut pseudos: PseudoStyles<u32, &'static str> = PseudoStyles::empty();
    assert!(pseudos.is_empty());
    assert!(pseudos.get(&1).is_none());
    assert!(pseudos.insert(1, style(10, Display::Keyword(1))).is_none());
    assert!(pseudos.insert(2, style(20, Display::Keyword(1))).is_none());
    assert_eq!(pseudos.insert(1, style(11, Display::NoBox)).unwrap().rules, 10);
    assert_eq!(pseudos.len(), 2);
    assert_eq!(pseudos.get(&1).unwrap().rules, 11);
    assert_eq!(pseudos.get(&2).unwrap().rules, 20);
    let copy = pseudos.clone();
    assert_eq!(pseudos.remove(&1).unwrap().rules, 11);
    assert!(!pseudos.contains_key(&1));
    assert_eq!(copy.len(), 2);
}

#[test]
fn element_styles_start_without_pseudo_elements() {
    let styles = ElementStyles::new(style(5, Display::Keyword(0)));
    assert_eq!(styles.primary.rules, 5);
    assert!(styles.pseudos.is_empty());
}

#[test]
fn display_none() {
    assert!(ElementStyles::new(style(5, Display::NoBox)).is_display_none());
    assert!(!ElementStyles::new(style(5, Display::Keyword(0))).is_display_none());
    assert!(!ElementStyles::new(style(5, Display::Keyword(255))).is_display_none());
}

#[test]
fn damage_values() {
    assert_eq!(RestyleDamage::empty().bits, 0);
    assert_eq!(RestyleDamage::rebuild_and_reflow().bits, REBUILD | REFLOW);
    assert_eq!(RestyleDamage::rebuild_and_reflow(), RestyleDamage { bits: 3 });
    assert!(RestyleDamage::empty() != RestyleDamage::rebuild_and_reflow());
}

#[test]
fn damage_accumulates() {
    let a = RestyleDamage { bits: 0x11 };
    let b = RestyleDamage { bits: 0x30 };
    let c = RestyleDamage { bits: 0x8000_0000 };
    assert_eq!(a | b, RestyleDamage { bits: 0x31 });
    assert_eq!(a | b, b | a);
    assert_eq!((a | b) | c, a | (b | c));
    assert_eq!((a | b) | b, a | b);
    assert_eq!(a | RestyleDamage::empty(), a);
    assert_eq!(RestyleDamage::empty() | a, a);
}
