//! The window-visibility toggle and the DevTools toggle.
//!
//! The shell owns no window state of its own: the host window's visibility
//! flag is the state, read just before each decision. The global shortcut's
//! handler decides one of two actions from it — hide, or show and focus —
//! and the host performs the action. The developer menu's handler makes the
//! same shape of decision over the DevTools panel's open flag.

use vstd::prelude::*;

verus! {

/// What the shortcut handler tells the host window to do.
#[derive(Clone, Copy, Debug, PartialEq, Eq, Structural)]
pub enum WindowAction {
    Hide,
    ShowAndFocus,
}

/// The main window's observable state: whether it is shown, and whether it
/// holds input focus.
#[derive(Clone, Copy, Debug, PartialEq, Eq, Structural)]
pub struct WindowState {
    pub visible: bool,
    pub focused: bool,
}

/// The toggle decision: hide a visible window; show a hidden one and hand it
/// input focus.
pub open spec fn toggle_action_spec(visible: bool) -> WindowAction {
    if visible {
        WindowAction::Hide
    } else {
        WindowAction::ShowAndFocus
    }
}

/// Decides the global shortcut's effect from the window's current
/// visibility.
pub fn toggle_action(visible: bool) -> (a: WindowAction)
    ensures
        a == toggle_action_spec(visible),
{
    if visible {
        WindowAction::Hide
    } else {
        WindowAction::ShowAndFocus
    }
}

/// The window state after the host performs an action: hiding removes both
/// visibility and focus; showing grants both.
pub open spec fn apply_action_spec(state: WindowState, action: WindowAction) -> WindowState {
    match action {
        WindowAction::Hide => WindowState { visible: false, focused: false },
        WindowAction::ShowAndFocus => WindowState { visible: true, focused: true },
    }
}

/// The window state an action leaves behind, as the host documents its
/// window operations.
pub fn apply_action(state: WindowState, action: WindowAction) -> (s: WindowState)
    ensures
        s == apply_action_spec(state, action),
{
    match action {
        WindowAction::Hide => WindowState { visible: false, focused: false },
        WindowAction::ShowAndFocus => WindowState { visible: true, focused: true },
    }
}

/// Firing the shortcut twice in succession returns the window to its
/// original visibility, from either starting state.
pub proof fn lemma_toggle_twice_restores_visibility(state: WindowState)
    ensures
        ({
            let once = apply_action_spec(state, toggle_action_spec(state.visible));
            let twice = apply_action_spec(once, toggle_action_spec(once.visible));
            twice.visible == state.visible
        }),
{
}

/// What the developer-menu handler tells the host to do with the DevTools
/// panel.
#[derive(Clone, Copy, Debug, PartialEq, Eq, Structural)]
pub enum DevtoolsAction {
    Open,
    Close,
}

/// The DevTools decision: close an open panel, open a closed one.
pub open spec fn devtools_action_spec(is_open: bool) -> DevtoolsAction {
    if is_open {
        DevtoolsAction::Close
    } else {
        DevtoolsAction::Open
    }
}

/// Decides the developer menu item's effect from the DevTools panel's
/// current open flag.
pub fn devtools_action(is_open: bool) -> (a: DevtoolsAction)
    ensures
        a == devtools_action_spec(is_open),
{
    if is_open {
        DevtoolsAction::Close
    } else {
        DevtoolsAction::Open
    }
}

} // verus!
