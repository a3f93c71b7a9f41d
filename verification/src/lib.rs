//! A desktop-application shell's decision layer.
//!
//! The shell exposes three bridge operations to its front end — show a system
//! notification, export a text payload to a user-chosen file, import a
//! user-chosen file as text — and registers one global shortcut that toggles
//! the main window's visibility. The host runtime owns every native service
//! (dialogs, notifications, the window, the filesystem); this crate owns every
//! decision: which action follows a dialog outcome, which error kind each
//! failure maps to, and how the window state changes under the toggle.

pub mod dialog;
pub mod error;
pub mod fs_model;
pub mod notify;
pub mod shortcut;
pub mod window;
