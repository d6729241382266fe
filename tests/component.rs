use pluggable::component::{Component, OpaqueComponent};
use pluggable::identifier::{IComponentVtbl, BASE_IID, IID};
use pluggable::interface::{IComponent, Interface};

struct DrawableVtbl;

impl IID for DrawableVtbl {
    fn spec_iid() -> u128 {
        0x1
    }

    fn iid() -> u128 {
        0x1
    }
}

struct LoggerVtbl;

impl IID for LoggerVtbl {
    fn spec_iid() -> u128 {
        0x2
    }

    fn iid() -> u128 {
        0x2
    }
}

const DRAWABLE: u128 = 0x1;
const LOGGER: u128 = 0x2;

#[test]
fn widget_scenario() {
    let (mut widget, h1) = OpaqueComponent::new(0x1000, vec![DRAWABLE]);
    assert_eq!(widget.ref_count(), 1);
    let h2 = h1.get_interface::<DrawableVtbl, _>(&mut widget);
    assert!(h2.is_some());
    assert_eq!(widget.ref_count(), 2);
    let h3 = h1.get_interface::<LoggerVtbl, _>(&mut widget);
    assert!(h3.is_none());
    assert_eq!(widget.ref_count(), 2);
    h2.unwrap().drop(&mut widget);
    assert_eq!(widget.ref_count(), 1);
    assert_eq!(widget.teardowns(), 0);
    h1.drop(&mut widget);
    assert_eq!(widget.ref_count(), 0);
    assert_eq!(widget.teardowns(), 1);
}

#[test]
fn two_independent_copies_tear_down_once() {
    let (mut c, h) = OpaqueComponent::new(7, vec![]);
    let a = h.clone(&mut c);
    let b = h.clone(&mut c);
    h.drop(&mut c);
    assert_eq!(c.ref_count(), 2);
    b.drop(&mut c);
    assert_eq!(c.teardowns(), 0);
    a.drop(&mut c);
    assert_eq!(c.ref_count(), 0);
    assert_eq!(c.teardowns(), 1);
}

#[test]
fn cast_returns_handle_of_same_component() {
    let (mut c, h) = OpaqueComponent::new(0x2000, vec![DRAWABLE, LOGGER]);
    let d: Interface<DrawableVtbl> = h.get_interface::<DrawableVtbl, _>(&mut c).unwrap();
    assert_eq!(d.component, 0x2000);
    let l = d.get_interface::<LoggerVtbl, _>(&mut c).unwrap();
    assert_eq!(l.component, 0x2000);
    assert_eq!(c.ref_count(), 3);
}

#[test]
fn failed_cast_leaves_count() {
    let (mut c, h) = OpaqueComponent::new(1, vec![DRAWABLE]);
    let before = c.ref_count();
    assert!(h.get_interface::<LoggerVtbl, _>(&mut c).is_none());
    assert_eq!(c.ref_count(), before);
    assert_eq!(c.teardowns(), 0);
}

#[test]
fn cast_to_base_always_succeeds() {
    let (mut c, h) = OpaqueComponent::new(3, vec![DRAWABLE]);
    let d = h.get_interface::<DrawableVtbl, _>(&mut c).unwrap();
    let b: IComponent = d.get_interface::<IComponentVtbl, _>(&mut c).unwrap();
    assert_eq!(b.component, 3);
    assert_eq!(c.ref_count(), 3);
}

#[test]
fn base_identifier_is_zero() {
    assert_eq!(BASE_IID, 0);
    assert_eq!(IComponentVtbl::iid(), 0);
}

#[test]
fn copy_then_destroy_is_neutral() {
    let (mut c, h) = OpaqueComponent::new(9, vec![DRAWABLE]);
    let copy = h.clone(&mut c);
    assert_eq!(copy.component, h.component);
    assert_eq!(c.ref_count(), 2);
    copy.drop(&mut c);
    assert_eq!(c.ref_count(), 1);
    assert_eq!(c.teardowns(), 0);
    assert!(c.supports(DRAWABLE));
}

#[test]
fn many_copies_then_all_destroyed() {
    let (mut c, h) = OpaqueComponent::new(11, vec![]);
    let mut handles = Vec::new();
    for _ in 0..5 {
        handles.push(h.clone(&mut c));
    }
    assert_eq!(c.ref_count(), 6);
    h.drop(&mut c);
    while let Some(x) = handles.pop() {
        assert_eq!(c.teardowns(), 0);
        x.drop(&mut c);
    }
    assert_eq!(c.ref_count(), 0);
    assert_eq!(c.teardowns(), 1);
}

#[test]
fn new_component_supports_base_and_listed() {
    let (c, h) = OpaqueComponent::new(42, vec![5, 6]);
    assert_eq!(c.address(), 42);
    assert!(c.supports(BASE_IID));
    assert!(c.supports(5));
    assert!(c.supports(6));
    assert!(!c.supports(7));
    assert_eq!(h.component, 42);
}

#[test]
fn base_operations_adjust_count() {
    let (mut c, h) = OpaqueComponent::new(8, vec![DRAWABLE]);
    c.increment_ref();
    assert_eq!(c.ref_count(), 2);
    let base = c.query(DRAWABLE).unwrap();
    assert_eq!(base.component, 8);
    assert_eq!(c.ref_count(), 3);
    assert!(c.query(LOGGER).is_none());
    assert_eq!(c.ref_count(), 3);
    c.decrement_ref();
    c.decrement_ref();
    assert_eq!(c.ref_count(), 1);
    h.drop(&mut c);
    assert_eq!(c.teardowns(), 1);
}

#[test]
fn handle_built_by_address() {
    let h: Interface<DrawableVtbl> = Interface::held(0x30);
    assert_eq!(h.component, 0x30);
}
