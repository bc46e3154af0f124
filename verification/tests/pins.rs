use sysfs_gpio::{attr_path, gpio_dir_path, GpioError, Pin, PinPoller};

// A pin number no kernel exports: its sysfs directory cannot exist, so
// the lifecycle calls below are deterministic with or without GPIO
// hardware on the machine running the tests.
const ABSENT_PIN: u64 = u64::MAX;

#[test]
fn paths() {
    assert_eq!(gpio_dir_path(50), "/sys/class/gpio/gpio50");
    assert_eq!(attr_path(50, "value"), "/sys/class/gpio/gpio50/value");
    assert_eq!(attr_path(0, "direction"), "/sys/class/gpio/gpio0/direction");
    assert_eq!(attr_path(127, "edge"), "/sys/class/gpio/gpio127/edge");
}

#[test]
fn new_pin_keeps_its_number() {
    let pin = Pin::new(24);
    assert_eq!(pin.get_pin(), 24);
    assert_eq!(Pin::new(0).get_pin(), 0);
}

#[test]
fn unexport_of_never_exported_pin_is_ok() {
    // No directory exists for this pin, so unexport writes nothing and
    // succeeds trivially.
    let pin = Pin::new(ABSENT_PIN);
    assert!(pin.unexport().is_ok());
    // And it stays idempotent.
    assert!(pin.unexport().is_ok());
}

#[test]
fn export_of_impossible_pin_is_os_error() {
    // Either the control file cannot be opened (no GPIO sysfs at all) or
    // the kernel rejects the number: an OS error either way, never an
    // unexpected-content error.
    let pin = Pin::new(ABSENT_PIN);
    match pin.export() {
        Err(GpioError::Os(_)) => {}
        other => panic!("expected an OS error, got {:?}", other),
    }
}

#[test]
fn with_exported_short_circuits_on_export_failure() {
    let pin = Pin::new(ABSENT_PIN);
    let result = pin.with_exported(|| panic!("body must not run when export fails"));
    assert!(matches!(result, Err(GpioError::Os(_))));
}

#[test]
fn attribute_access_without_export_is_os_error() {
    let pin = Pin::new(ABSENT_PIN);
    assert!(matches!(pin.get_direction(), Err(GpioError::Os(_))));
    assert!(matches!(pin.get_value(), Err(GpioError::Os(_))));
    assert!(matches!(pin.get_edge(), Err(GpioError::Os(_))));
    assert!(matches!(pin.set_value(1), Err(GpioError::Os(_))));
}

#[test]
fn poller_construction_fails_cleanly_without_the_pin() {
    // The value attribute cannot be opened, so construction fails with an
    // OS error instead of handing back a half-built poller.
    match PinPoller::new(ABSENT_PIN) {
        Err(GpioError::Os(_)) => {}
        Ok(_) => panic!("a poller must not exist for an absent pin"),
        Err(e) => panic!("expected an OS error, got {:?}", e),
    }
    let pin = Pin::new(ABSENT_PIN);
    assert!(pin.get_poller().is_err());
}

#[test]
fn two_pollers_for_one_pin_do_not_crash() {
    // Two independent construction attempts for the same pin number must
    // not crash the process, whatever each returns.
    let first = PinPoller::new(ABSENT_PIN);
    let second = PinPoller::new(ABSENT_PIN);
    for p in [first, second] {
        match p {
            Ok(poller) => assert!(poller.close().is_ok()),
            Err(GpioError::Os(_)) => {}
            Err(e) => panic!("expected an OS error, got {:?}", e),
        }
    }
}
