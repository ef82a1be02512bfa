use std::cell::Cell;
use std::rc::Rc;
use style_data::snapshot::SnapshotOption;

struct CountsDrops(Rc<Cell<u32>>);

impl Drop for CountsDrops {
    fn drop(&mut self) {
        self.0.set(self.0.get() + 1);
    }
}

#[test]
fn an_empty_option_shows_nothing() {
    let option: SnapshotOption<u32> = SnapshotOption::empty();
    assert!(option.is_none());
    assert!(option.as_ref().is_none());
}

#[test]
fn ensure_creates_once() {
    let mut option = SnapshotOption::empty();
    *option.ensure(|| 5u32) += 1;
    assert_eq!(*option, Some(6));
    assert_eq!(*option.ensure(|| panic!("there is a snapshot already")), 6);
}

#[test]
fn destroy_hides_the_snapshot() {
    let mut option = SnapshotOption::empty();
    option.ensure(|| 5u32);
    option.destroy();
    assert!(option.is_none());
    option.destroy();
    assert!(option.is_none());
    assert_eq!(*option.ensure(|| 7u32), 7);
    assert_eq!(*option, Some(7));
}

#[test]
fn destroying_nothing_is_harmless() {
    let mut option: SnapshotOption<u32> = SnapshotOption::empty();
    option.destroy();
    assert!(option.is_none());
    assert_eq!(*option.ensure(|| 9), 9);
}

#[test]
fn destroy_puts_the_drop_off() {
    let drops = Rc::new(Cell::new(0));
    let mut option = SnapshotOption::empty();
    option.ensure(|| CountsDrops(drops.clone()));
    option.destroy();
    assert!(option.is_none());
    assert_eq!(drops.get(), 0);
    option.ensure(|| CountsDrops(drops.clone()));
    assert_eq!(drops.get(), 1);
    drop(option);
    assert_eq!(drops.get(), 2);
}
