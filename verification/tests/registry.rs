use ruchei_ffi::registry::{Registry, SymmetricRegistry};
use std::cell::Cell;

#[test]
fn an_empty_registry_knows_no_key() {
    let registry: Registry<u8> = Registry::new();
    assert_eq!(registry.try_get(&1), None);
    let registry: Registry<u8> = Registry::default();
    assert_eq!(registry.try_get(&0), None);
}

#[test]
fn a_value_is_made_once() {
    let made = Cell::new(0);
    let mut registry = Registry::new();
    let first = registry.get(5, || {
        made.set(made.get() + 1);
        "five"
    });
    let second = registry.get(5, || {
        made.set(made.get() + 1);
        "again"
    });
    assert_eq!(first, "five");
    assert_eq!(second, "five");
    assert_eq!(made.get(), 1);
    assert_eq!(registry.try_get(&5), Some("five"));
    assert_eq!(registry.try_get(&6), None);
}

#[test]
fn a_key_keeps_its_value_among_others() {
    let mut registry = Registry::new();
    for key in 0..1000 {
        assert_eq!(registry.get(key, || key * 2), key * 2);
    }
    for key in 0..1000 {
        assert_eq!(registry.get(key, || 1), key * 2);
        assert_eq!(registry.try_get(&key), Some(key * 2));
    }
    assert_eq!(registry.try_get(&1000), None);
}

#[test]
fn partners_lead_to_each_other() {
    let mut registry = SymmetricRegistry::new();
    assert_eq!(registry.try_get_ab(&1), None);
    assert_eq!(registry.get_ab(1, || 100), 100);
    assert_eq!(registry.get_ab(1, || 101), 100);
    assert_eq!(registry.try_get_ab(&1), Some(100));
    assert_eq!(registry.try_get_ba(&100), Some(1));
    assert_eq!(registry.get_ba(100, || 9), 1);
    assert_eq!(registry.get_ba(200, || 2), 2);
    assert_eq!(registry.get_ba(200, || 3), 2);
    assert_eq!(registry.try_get_ba(&200), Some(2));
    assert_eq!(registry.try_get_ab(&2), Some(200));
    assert_eq!(registry.try_get_ba(&1), None);
}

#[test]
fn a_partner_in_use_changes_sides() {
    let mut registry = SymmetricRegistry::default();
    assert_eq!(registry.get_ab(1, || 100), 100);
    assert_eq!(registry.get_ab(2, || 100), 100);
    assert_eq!(registry.try_get_ab(&1), Some(100));
    assert_eq!(registry.try_get_ba(&100), Some(2));
}

#[test]
fn a_key_that_was_not_requested_has_no_value() {
    let mut registry = Registry::new();
    for key in [4, 9, 4] {
        registry.get(key, || key * 10);
    }
    for key in 0..12 {
        let expected = if key == 4 || key == 9 { Some(key * 10) } else { None };
        assert_eq!(registry.try_get(&key), expected);
    }
}
