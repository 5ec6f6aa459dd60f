use numid::{NumId, NumIdError, NumIdKind};

#[test]
fn scenario_initial_value_100() {
    let mut kind = NumIdKind::declare(100);
    assert_eq!(NumId::current_value(&kind), 100);

    let a = NumId::new(&mut kind);
    assert_eq!(a.value(), 101);
    assert_eq!(NumId::current_value(&kind), 101);

    let b = NumId::new(&mut kind);
    assert_eq!(b.value(), 102);

    assert!(NumId::replace_current_value(&mut kind, 150));
    assert_eq!(NumId::current_value(&kind), 150);
    assert_eq!(NumId::replace_current_value(&mut kind, 1), false);
    assert_eq!(NumId::current_value(&kind), 150);

    let c = NumId::new(&mut kind);
    assert_eq!(c.value(), 151);

    assert_eq!(
        NumId::try_create_lower(&kind, 101),
        Err(NumIdError::PreconditionViolation)
    );
    let low = NumId::create_lower(&kind, 100);
    assert_eq!(low.value(), 100);
    assert_eq!(NumId::current_value(&kind), 151);
}

#[test]
fn minted_values_strictly_increase() {
    let mut kind = NumIdKind::declare(7);
    let v0 = NumId::new(&mut kind).value();
    let v1 = NumId::new(&mut kind).value();
    let v2 = NumId::new(&mut kind).value();
    assert!(v0 < v1);
    assert!(v1 < v2);
}

#[test]
fn current_equals_initial_before_any_mutation() {
    let kind = NumIdKind::declare(42);
    assert_eq!(NumId::current_value(&kind), NumId::initial_value(&kind));
    assert_eq!(NumId::current_value(&kind), 42);
}

#[test]
fn create_lower_never_raises_the_counter() {
    let kind = NumIdKind::declare(42);
    let low = NumId::create_lower(&kind, 0);
    assert_eq!(low.value(), 0);
    let edge = NumId::create_lower(&kind, 42);
    assert_eq!(edge.value(), 42);
    assert_eq!(NumId::current_value(&kind), 42);
}

#[test]
fn replace_guard_is_strict() {
    let mut kind = NumIdKind::declare(42);
    assert!(NumId::replace_current_value(&mut kind, 50));
    assert_eq!(NumId::current_value(&kind), 50);
    assert_eq!(NumId::replace_current_value(&mut kind, 50), false);
    assert_eq!(NumId::current_value(&kind), 50);
    assert_eq!(NumId::replace_current_value(&mut kind, 49), false);
    assert_eq!(NumId::current_value(&kind), 50);
}

#[test]
fn create_maybe_agrees_with_replace() {
    let mut replaced_kind = NumIdKind::declare(3);
    let mut maybe_kind = NumIdKind::declare(3);

    let replaced = NumId::replace_current_value(&mut replaced_kind, 9);
    let maybe = NumId::create_maybe(&mut maybe_kind, 9);
    assert_eq!(replaced, maybe.is_some());
    assert_eq!(maybe.unwrap().value(), 9);
    assert_eq!(
        NumId::current_value(&replaced_kind),
        NumId::current_value(&maybe_kind)
    );

    let replaced = NumId::replace_current_value(&mut replaced_kind, 4);
    let maybe = NumId::create_maybe(&mut maybe_kind, 4);
    assert_eq!(replaced, maybe.is_some());
    assert_eq!(maybe, None);
    assert_eq!(
        NumId::current_value(&replaced_kind),
        NumId::current_value(&maybe_kind)
    );
}

#[test]
fn reproduce_keeps_reserved_identifiers() {
    let mut kind = NumIdKind::declare(10);
    let low = NumId::create_lower(&kind, 10);
    let kept = low.reproduce(&mut kind);
    assert_eq!(kept, low);
    assert_eq!(NumId::current_value(&kind), 10);
}

#[test]
fn reproduce_promotes_live_identifiers() {
    let mut kind = NumIdKind::declare(10);
    let id = NumId::new(&mut kind);
    let promoted = id.reproduce(&mut kind);
    assert!(promoted.value() > id.value());
    assert_eq!(promoted.value(), NumId::current_value(&kind));
}

#[test]
fn replace_to_maximum_value() {
    let mut kind = NumIdKind::declare(0);
    assert!(NumId::replace_current_value(&mut kind, u64::MAX));
    assert_eq!(NumId::current_value(&kind), u64::MAX);
    assert_eq!(NumId::create_maybe(&mut kind, u64::MAX), None);
}

#[test]
fn kinds_are_independent() {
    let mut first = NumIdKind::declare(0);
    let mut second = NumIdKind::declare(100);
    let a = NumId::new(&mut first);
    let b = NumId::new(&mut second);
    assert_eq!(a.value(), 1);
    assert_eq!(b.value(), 101);
    assert_eq!(NumId::current_value(&first), 1);
    assert_eq!(NumId::current_value(&second), 101);
}
