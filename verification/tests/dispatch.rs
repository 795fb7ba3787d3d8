use ess_shell::dispatch::{
    action_from_id, tray_menu_entries, Command, Dispatcher, MenuEntry, TrayAction, WindowName,
};
use ess_shell::prefs::PrefStore;

fn dispatcher(base: &str) -> Dispatcher {
    Dispatcher::new(base.to_string(), PrefStore::new())
}

#[test]
fn action_ids_map_to_actions() {
    assert_eq!(action_from_id("open_main"), Some(TrayAction::OpenMain));
    assert_eq!(action_from_id("open_control"), Some(TrayAction::OpenControl));
    assert_eq!(action_from_id("control_aot"), Some(TrayAction::ControlAot));
    assert_eq!(action_from_id("clear_session"), Some(TrayAction::ClearSession));
    assert_eq!(action_from_id("quit"), Some(TrayAction::Quit));
    assert_eq!(action_from_id("something_else"), None);
    assert_eq!(action_from_id(""), None);
}

#[test]
fn open_main_shows_and_focuses() {
    let mut d = dispatcher("http://b");
    let cmds = d.handle_action(TrayAction::OpenMain, true, false);
    assert_eq!(
        cmds,
        vec![
            Command::Show { window: WindowName::Main },
            Command::Focus { window: WindowName::Main },
        ]
    );
}

#[test]
fn open_main_without_window_is_noop() {
    let mut d = dispatcher("http://b");
    let cmds = d.handle_action(TrayAction::OpenMain, false, false);
    assert!(cmds.is_empty());
}

#[test]
fn open_control_creates_when_absent() {
    let mut d = dispatcher("http://b");
    let cmds = d.handle_action(TrayAction::OpenControl, true, false);
    assert_eq!(
        cmds,
        vec![Command::CreateControl {
            url: "http://b/app/control".to_string(),
            title: "ESS Control".to_string(),
            width: 520,
            height: 720,
            resizable: true,
            always_on_top: false,
        }]
    );
}

#[test]
fn open_control_reuses_when_present() {
    let mut d = dispatcher("http://b");
    let cmds = d.handle_action(TrayAction::OpenControl, true, true);
    assert_eq!(
        cmds,
        vec![
            Command::Show { window: WindowName::Control },
            Command::Focus { window: WindowName::Control },
        ]
    );
}

#[test]
fn open_control_twice_creates_only_once() {
    let mut d = dispatcher("http://b");
    let mut control_present = false;

    let first = d.handle_action(TrayAction::OpenControl, true, control_present);
    let first_creates = first
        .iter()
        .filter(|c| matches!(c, Command::CreateControl { .. }))
        .count();
    assert_eq!(first_creates, 1);
    control_present = control_present
        || first.iter().any(|c| matches!(c, Command::CreateControl { .. }));

    let second = d.handle_action(TrayAction::OpenControl, true, control_present);
    assert!(second.iter().all(|c| !matches!(c, Command::CreateControl { .. })));
    assert_eq!(
        second,
        vec![
            Command::Show { window: WindowName::Control },
            Command::Focus { window: WindowName::Control },
        ]
    );
}

#[test]
fn open_control_uses_current_preference() {
    let mut d = dispatcher("http://b");
    d.handle_action(TrayAction::ControlAot, true, false);
    let cmds = d.handle_action(TrayAction::OpenControl, true, false);
    match &cmds[0] {
        Command::CreateControl { always_on_top, .. } => assert!(*always_on_top),
        other => panic!("expected a create command, got {:?}", other),
    }
}

#[test]
fn control_aot_flips_preference_and_checkmark() {
    let mut d = dispatcher("http://b");
    assert!(!d.prefs.get());

    let cmds = d.handle_action(TrayAction::ControlAot, true, false);
    assert!(d.prefs.get());
    assert_eq!(d.tray_checked, d.prefs.get());
    assert_eq!(cmds, vec![Command::SetTrayChecked { checked: true }]);

    let cmds = d.handle_action(TrayAction::ControlAot, true, false);
    assert!(!d.prefs.get());
    assert_eq!(d.tray_checked, d.prefs.get());
    assert_eq!(cmds, vec![Command::SetTrayChecked { checked: false }]);
}

#[test]
fn control_aot_applies_to_present_window() {
    let mut d = dispatcher("http://b");
    let cmds = d.handle_action(TrayAction::ControlAot, true, true);
    assert_eq!(
        cmds,
        vec![
            Command::SetTrayChecked { checked: true },
            Command::SetControlAlwaysOnTop { on_top: true },
        ]
    );
}

#[test]
fn clear_session_targets_endpoint_for_both_windows() {
    let mut d = dispatcher("http://b");
    let cmds = d.handle_action(TrayAction::ClearSession, true, true);
    assert_eq!(
        cmds,
        vec![
            Command::Navigate {
                window: WindowName::Main,
                url: "http://b/api/auth/clear-session".to_string(),
            },
            Command::Show { window: WindowName::Main },
            Command::Focus { window: WindowName::Main },
            Command::Navigate {
                window: WindowName::Control,
                url: "http://b/api/auth/clear-session".to_string(),
            },
        ]
    );
}

#[test]
fn clear_session_without_control_window() {
    let mut d = dispatcher("http://b");
    let cmds = d.handle_action(TrayAction::ClearSession, true, false);
    assert_eq!(
        cmds,
        vec![
            Command::Navigate {
                window: WindowName::Main,
                url: "http://b/api/auth/clear-session".to_string(),
            },
            Command::Show { window: WindowName::Main },
            Command::Focus { window: WindowName::Main },
        ]
    );
}

#[test]
fn clear_session_target_ignores_navigation_state() {
    let mut d = dispatcher("http://b");
    d.handle_action(TrayAction::OpenControl, true, false);
    d.handle_action(TrayAction::OpenMain, true, true);
    let cmds = d.handle_action(TrayAction::ClearSession, true, true);
    for cmd in &cmds {
        if let Command::Navigate { url, .. } = cmd {
            assert_eq!(url, "http://b/api/auth/clear-session");
        }
    }
}

#[test]
fn quit_is_the_only_terminator() {
    let mut d = dispatcher("http://b");
    let quit_cmds = d.handle_action(TrayAction::Quit, true, true);
    assert_eq!(quit_cmds, vec![Command::Exit]);

    let others = [
        TrayAction::OpenMain,
        TrayAction::OpenControl,
        TrayAction::ControlAot,
        TrayAction::ClearSession,
    ];
    for action in others {
        for main_present in [false, true] {
            for control_present in [false, true] {
                let mut d = dispatcher("http://b");
                let cmds = d.handle_action(action, main_present, control_present);
                assert!(cmds.iter().all(|c| !matches!(c, Command::Exit)));
            }
        }
    }
}

#[test]
fn menu_click_with_unknown_id_is_noop() {
    let mut d = dispatcher("http://b");
    let before = d.prefs.get();
    let cmds = d.handle_menu_click("unheard_of", true, true);
    assert!(cmds.is_empty());
    assert_eq!(d.prefs.get(), before);
}

#[test]
fn menu_click_dispatches_by_id() {
    let mut d = dispatcher("http://b");
    let cmds = d.handle_menu_click("quit", true, false);
    assert_eq!(cmds, vec![Command::Exit]);

    let mut d = dispatcher("http://b");
    let cmds = d.handle_menu_click("open_main", true, false);
    assert_eq!(
        cmds,
        vec![
            Command::Show { window: WindowName::Main },
            Command::Focus { window: WindowName::Main },
        ]
    );
}

#[test]
fn tray_menu_has_expected_entries() {
    let entries = tray_menu_entries(false);
    assert_eq!(
        entries,
        vec![
            MenuEntry::Item {
                id: "open_main".to_string(),
                label: "Open ESS".to_string(),
                checkable: false,
                checked: false,
            },
            MenuEntry::Item {
                id: "open_control".to_string(),
                label: "Open Control Window".to_string(),
                checkable: false,
                checked: false,
            },
            MenuEntry::Item {
                id: "control_aot".to_string(),
                label: "Control: Always On Top".to_string(),
                checkable: true,
                checked: false,
            },
            MenuEntry::Item {
                id: "clear_session".to_string(),
                label: "Clear Session (Logout)".to_string(),
                checkable: false,
                checked: false,
            },
            MenuEntry::Separator,
            MenuEntry::Item {
                id: "quit".to_string(),
                label: "Quit".to_string(),
                checkable: false,
                checked: false,
            },
        ]
    );
}

#[test]
fn tray_menu_checkmark_follows_preference() {
    let entries = tray_menu_entries(true);
    match &entries[2] {
        MenuEntry::Item { id, checkable, checked, .. } => {
            assert_eq!(id, "control_aot");
            assert!(*checkable);
            assert!(*checked);
        },
        other => panic!("expected the toggle item, got {:?}", other),
    }
}
