//! Placement and lifecycle rules for service panes hosted by a desktop shell.
//!
//! Every service pane is a native window of its own. A pane is either an
//! independent, decorated top-level window or it is embedded: borderless,
//! kept off the task switcher and tied to the shell's main window. This
//! library decides what has to happen to the native windows and keeps the
//! books; the host performs the native calls and reports how each one went.

pub mod geometry;
pub mod naming;
pub mod platform;
pub mod error;
pub mod address;
pub mod registry;
pub mod operation;
pub mod controller;
pub mod laws;
pub mod greeting;
