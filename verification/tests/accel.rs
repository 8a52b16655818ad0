use menu_registry::accel::{accelerator_ok, resolve_accelerator, Platform};

#[test]
fn primary_modifier_resolves_per_platform() {
    assert_eq!(resolve_accelerator("CmdOrCtrl+N", Platform::MacOs), "Cmd+N");
    assert_eq!(resolve_accelerator("CmdOrCtrl+N", Platform::Windows), "Ctrl+N");
    assert_eq!(resolve_accelerator("CmdOrCtrl+N", Platform::Linux), "Ctrl+N");
    assert_eq!(resolve_accelerator("CmdOrCtrl+S", Platform::MacOs), "Cmd+S");
    assert_eq!(resolve_accelerator("CmdOrCtrl+O", Platform::Windows), "Ctrl+O");
    assert_eq!(resolve_accelerator("CmdOrCtrl+R", Platform::Linux), "Ctrl+R");
}

#[test]
fn plain_accelerators_pass_through() {
    assert_eq!(resolve_accelerator("Shift+F", Platform::MacOs), "Shift+F");
    assert_eq!(resolve_accelerator("Ctrl+N", Platform::MacOs), "Ctrl+N");
    assert_eq!(resolve_accelerator("F11", Platform::Windows), "F11");
    // nine characters only: not the CmdOrCtrl prefix
    assert_eq!(resolve_accelerator("CmdOrCtrl", Platform::MacOs), "CmdOrCtrl");
}

#[test]
fn well_formed_accelerators_accepted() {
    assert!(accelerator_ok("CmdOrCtrl+N"));
    assert!(accelerator_ok("Shift+Alt+F"));
    assert!(accelerator_ok("A"));
    assert!(accelerator_ok("F11"));
}

#[test]
fn malformed_accelerators_rejected() {
    assert!(!accelerator_ok(""));
    assert!(!accelerator_ok("+N"));
    assert!(!accelerator_ok("N+"));
    assert!(!accelerator_ok("Ctrl++N"));
    assert!(!accelerator_ok("+"));
}
