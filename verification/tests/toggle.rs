use desktop_shell::shortcut::{shortcut_for, Platform};
use desktop_shell::window::{
    apply_action, devtools_action, toggle_action, DevtoolsAction, WindowAction, WindowState,
};

#[test]
fn hidden_window_becomes_visible_and_focused() {
    let start = WindowState {
        visible: false,
        focused: false,
    };
    let action = toggle_action(start.visible);
    assert_eq!(action, WindowAction::ShowAndFocus);
    let after = apply_action(start, action);
    assert!(after.visible);
    assert!(after.focused);
}

#[test]
fn visible_window_is_hidden() {
    let start = WindowState {
        visible: true,
        focused: true,
    };
    let action = toggle_action(start.visible);
    assert_eq!(action, WindowAction::Hide);
    let after = apply_action(start, action);
    assert!(!after.visible);
}

#[test]
fn toggling_twice_restores_visibility() {
    for visible in [false, true] {
        let start = WindowState {
            visible,
            focused: visible,
        };
        let once = apply_action(start, toggle_action(start.visible));
        let twice = apply_action(once, toggle_action(once.visible));
        assert_eq!(twice.visible, start.visible);
    }
}

#[test]
fn devtools_toggle_inverts() {
    assert_eq!(devtools_action(true), DevtoolsAction::Close);
    assert_eq!(devtools_action(false), DevtoolsAction::Open);
}

#[test]
fn shortcut_table() {
    assert_eq!(shortcut_for(Platform::MacOs), "Cmd+Shift+Space");
    assert_eq!(shortcut_for(Platform::Windows), "Ctrl+Shift+Space");
    assert_eq!(shortcut_for(Platform::Linux), "Ctrl+Shift+Space");
}
