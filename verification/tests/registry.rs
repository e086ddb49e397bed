//! Registry lifecycle tests: liveness around registration and
//! unregistration, and the per-window associated value.

use kakistocracy::registry::Registry;

#[test]
fn registry_lifecycle() {
    let mut reg: Registry<u32> = Registry::new();
    assert!(!reg.is_alive(42));

    reg.register(42, 7).unwrap();
    assert!(reg.is_alive(42));
    assert_eq!(reg.get(42).copied(), Some(7));

    reg.unregister(42).unwrap();
    assert!(!reg.is_alive(42));
    assert!(reg.get(42).is_none());

    // Unregistering a dead handle is a lifecycle bug and fails loudly;
    // the handle stays dead.
    assert!(reg.unregister(42).is_err());
    assert!(!reg.is_alive(42));
}

#[test]
fn double_register_fails() {
    let mut reg: Registry<u32> = Registry::new();
    reg.register(1, 10).unwrap();
    assert!(reg.register(1, 20).is_err());
    // The failed registration changed nothing.
    assert_eq!(reg.get(1).copied(), Some(10));
}

#[test]
fn set_replaces_only_live_values() {
    let mut reg: Registry<&str> = Registry::new();
    assert!(reg.set(5, "nothing there").is_err());
    reg.register(5, "first").unwrap();
    reg.set(5, "second").unwrap();
    assert_eq!(reg.get(5).copied(), Some("second"));
}

#[test]
fn handles_are_independent() {
    let mut reg: Registry<u8> = Registry::new();
    reg.register(1, 1).unwrap();
    reg.register(2, 2).unwrap();
    reg.unregister(1).unwrap();
    assert!(!reg.is_alive(1));
    assert!(reg.is_alive(2));
    assert_eq!(reg.get(2).copied(), Some(2));
}
