//! Verified core of a clipboard-manager application shell.
//!
//! The host GUI runtime and its plugins do all of the heavy lifting
//! (clipboard capture, global hotkeys, window compositing, SQL storage).
//! What this library owns and proves is the application's own decision
//! logic: which action a tray interaction maps to, what that action does
//! to the main window and to the process, which plugins the bootstrap
//! registers and in what order, and how the one schema migration changes
//! the state of the local database.

pub mod bootstrap;
pub mod migration;
pub mod tray;
