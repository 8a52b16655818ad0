use menu_registry::menu::{Action, BuiltinAction, Command, Entry, Submenu};
use menu_registry::registry::{DispatchError, MenuBuildError, MenuRegistry};

fn command(id: &str, label: &str, accelerator: Option<&str>, action: Action) -> Entry {
    Entry::Command(Command {
        id: id.to_owned(),
        label: label.to_owned(),
        accelerator: accelerator.map(|a| a.to_owned()),
        action,
    })
}

#[test]
fn build_succeeds() {
    assert!(MenuRegistry::build().is_ok());
}

#[test]
fn build_shape() {
    let reg = MenuRegistry::build().unwrap();
    let sms = reg.submenus();
    assert_eq!(sms.len(), 3);

    assert_eq!(sms[0].title, "File");
    assert_eq!(sms[0].entries.len(), 5);
    assert!(matches!(sms[0].entries[0], Entry::Command(_)));
    assert!(matches!(sms[0].entries[1], Entry::Command(_)));
    assert!(matches!(sms[0].entries[2], Entry::Command(_)));
    assert_eq!(sms[0].entries[3], Entry::Separator);
    assert_eq!(sms[0].entries[4], Entry::Builtin(BuiltinAction::Quit));

    assert_eq!(sms[1].title, "Edit");
    assert_eq!(sms[1].entries.len(), 7);
    assert_eq!(sms[1].entries[0], Entry::Builtin(BuiltinAction::Undo));
    assert_eq!(sms[1].entries[1], Entry::Builtin(BuiltinAction::Redo));
    assert_eq!(sms[1].entries[2], Entry::Separator);
    assert_eq!(sms[1].entries[3], Entry::Builtin(BuiltinAction::Cut));
    assert_eq!(sms[1].entries[4], Entry::Builtin(BuiltinAction::CopySelection));
    assert_eq!(sms[1].entries[5], Entry::Builtin(BuiltinAction::Paste));
    assert_eq!(sms[1].entries[6], Entry::Builtin(BuiltinAction::SelectAll));

    assert_eq!(sms[2].title, "View");
    assert_eq!(sms[2].entries.len(), 3);
    assert!(matches!(sms[2].entries[0], Entry::Command(_)));
    assert_eq!(sms[2].entries[1], Entry::Separator);
    assert_eq!(sms[2].entries[2], Entry::Builtin(BuiltinAction::Fullscreen));
}

#[test]
fn command_ids_exactly_once() {
    let reg = MenuRegistry::build().unwrap();
    let mut ids: Vec<String> = Vec::new();
    for sm in reg.submenus() {
        for e in &sm.entries {
            if let Entry::Command(c) = e {
                ids.push(c.id.clone());
            }
        }
    }
    assert_eq!(ids, vec!["new", "save", "load", "reload"]);
}

#[test]
fn file_menu_accelerators() {
    let reg = MenuRegistry::build().unwrap();
    let sms = reg.submenus();
    match &sms[0].entries[0] {
        Entry::Command(c) => {
            assert_eq!(c.id, "new");
            assert_eq!(c.label, "New Character");
            assert_eq!(c.accelerator.as_deref(), Some("CmdOrCtrl+N"));
        }
        other => panic!("expected a command, got {:?}", other),
    }
    match &sms[0].entries[1] {
        Entry::Command(c) => {
            assert_eq!(c.id, "save");
            assert_eq!(c.accelerator.as_deref(), Some("CmdOrCtrl+S"));
        }
        other => panic!("expected a command, got {:?}", other),
    }
    match &sms[0].entries[2] {
        Entry::Command(c) => {
            assert_eq!(c.id, "load");
            assert_eq!(c.accelerator.as_deref(), Some("CmdOrCtrl+O"));
        }
        other => panic!("expected a command, got {:?}", other),
    }
    match &sms[2].entries[0] {
        Entry::Command(c) => {
            assert_eq!(c.id, "reload");
            assert_eq!(c.accelerator.as_deref(), Some("CmdOrCtrl+R"));
        }
        other => panic!("expected a command, got {:?}", other),
    }
}

#[test]
fn dispatch_known_ids() {
    let reg = MenuRegistry::build().unwrap();
    assert_eq!(reg.dispatch("new"), Ok(Action::NewCharacter));
    assert_eq!(reg.dispatch("save"), Ok(Action::Save));
    assert_eq!(reg.dispatch("load"), Ok(Action::Load));
    assert_eq!(reg.dispatch("reload"), Ok(Action::Reload));
}

#[test]
fn dispatch_unknown_id() {
    let reg = MenuRegistry::build().unwrap();
    assert_eq!(
        reg.dispatch("does-not-exist"),
        Err(DispatchError::UnknownCommand)
    );
    assert_eq!(reg.dispatch(""), Err(DispatchError::UnknownCommand));
    assert_eq!(reg.dispatch("New"), Err(DispatchError::UnknownCommand));
}

#[test]
fn build_is_idempotent() {
    let a = MenuRegistry::build().unwrap();
    let b = MenuRegistry::build().unwrap();
    assert_eq!(a, b);
}

#[test]
fn duplicate_id_refused() {
    let sm = Submenu {
        title: "File".to_owned(),
        entries: vec![
            command("new", "New Character", None, Action::NewCharacter),
            command("new", "New Again", None, Action::Save),
        ],
    };
    assert_eq!(
        MenuRegistry::from_submenus(vec![sm]).unwrap_err(),
        MenuBuildError::DuplicateId
    );
}

#[test]
fn duplicate_id_across_submenus_refused() {
    let a = Submenu {
        title: "File".to_owned(),
        entries: vec![command("save", "Save", None, Action::Save)],
    };
    let b = Submenu {
        title: "View".to_owned(),
        entries: vec![command("save", "Save Again", None, Action::Reload)],
    };
    assert_eq!(
        MenuRegistry::from_submenus(vec![a, b]).unwrap_err(),
        MenuBuildError::DuplicateId
    );
}

#[test]
fn invalid_accelerator_refused() {
    let sm = Submenu {
        title: "File".to_owned(),
        entries: vec![command("new", "New", Some("Ctrl++N"), Action::NewCharacter)],
    };
    assert_eq!(
        MenuRegistry::from_submenus(vec![sm]).unwrap_err(),
        MenuBuildError::InvalidAccelerator
    );
}

#[test]
fn invalid_accelerator_reported_before_duplicate_id() {
    let sm = Submenu {
        title: "File".to_owned(),
        entries: vec![
            command("new", "New", Some("+N"), Action::NewCharacter),
            command("new", "New Again", None, Action::Save),
        ],
    };
    assert_eq!(
        MenuRegistry::from_submenus(vec![sm]).unwrap_err(),
        MenuBuildError::InvalidAccelerator
    );
}

#[test]
fn empty_hierarchy_builds_and_dispatches_nothing() {
    let reg = MenuRegistry::from_submenus(Vec::new()).unwrap();
    assert_eq!(reg.submenus().len(), 0);
    assert_eq!(reg.dispatch("new"), Err(DispatchError::UnknownCommand));
}
