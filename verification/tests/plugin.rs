use menu_registry::plugin::{log_plugin_plan, LogLevel};

#[test]
fn debug_build_registers_exactly_once() {
    let mut registrations: usize = 0;
    if let Some(cfg) = log_plugin_plan(true) {
        registrations += 1;
        assert_eq!(cfg.min_level, LogLevel::Info);
    }
    assert_eq!(registrations, 1);
}

#[test]
fn release_build_registers_nothing() {
    let mut registrations: usize = 0;
    if log_plugin_plan(false).is_some() {
        registrations += 1;
    }
    assert_eq!(registrations, 0);
}
