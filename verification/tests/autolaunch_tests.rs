use luwidget::autolaunch::{enabled_from_query, toggle_outcome, Registrar};

#[test]
fn uninitialized_registrar_reports_distinct_error() {
    let reg = Registrar::uninitialized();
    assert!(!reg.is_initialized());
    assert_eq!(reg.toggle(), Err("AutoLaunch not initialized".to_string()));
    // A second call behaves the same: nothing changed.
    assert_eq!(reg.toggle(), Err("AutoLaunch not initialized".to_string()));
}

#[test]
fn uninitialized_registrar_reads_as_disabled() {
    let reg = Registrar::uninitialized();
    assert!(!reg.is_enabled());
}

#[test]
fn query_failure_reads_as_disabled() {
    assert!(enabled_from_query(Ok(true)));
    assert!(!enabled_from_query(Ok(false)));
    assert!(!enabled_from_query(Err("registry unreadable".to_string())));
}

#[test]
fn toggle_outcome_reports_target_or_error() {
    assert_eq!(toggle_outcome(true, Ok(())), Ok(true));
    assert_eq!(toggle_outcome(false, Ok(())), Ok(false));
    assert_eq!(
        toggle_outcome(true, Err("denied".to_string())),
        Err("denied".to_string())
    );
}

#[test]
fn initialize_yields_usable_registrar() {
    let reg = Registrar::initialize("luwidget-test-init", "/tmp/luwidget-test-app");
    assert!(reg.is_initialized());
}

#[test]
fn toggle_round_trip_restores_state() {
    let reg = Registrar::initialize("luwidget-test-roundtrip", "/tmp/luwidget-test-app");
    assert!(reg.is_initialized());
    // Normalize to disabled, whatever an earlier run left behind.
    if reg.is_enabled() {
        assert_eq!(reg.toggle(), Ok(false));
    }
    assert!(!reg.is_enabled());
    // Starting from disabled: the first toggle enables and says so ...
    assert_eq!(reg.toggle(), Ok(true));
    assert!(reg.is_enabled());
    // ... and the second restores the original state exactly.
    assert_eq!(reg.toggle(), Ok(false));
    assert!(!reg.is_enabled());
}

#[test]
fn serialized_toggles_observe_each_other() {
    let reg = Registrar::initialize("luwidget-test-serial", "/tmp/luwidget-test-app");
    assert!(reg.is_initialized());
    if reg.is_enabled() {
        assert_eq!(reg.toggle(), Ok(false));
    }
    // Two toggles in a row never report the same new state: the second
    // starts from the state the first left behind.
    let first = reg.toggle().expect("first toggle");
    let second = reg.toggle().expect("second toggle");
    assert_ne!(first, second);
    assert_eq!(second, !first);
}
