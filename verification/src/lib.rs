//! Builders and lifetime bookkeeping for applications whose event handlers
//! are driven by an external host shell.
//!
//! The crate keeps every handler alive and identifiable for as long as the
//! host may invoke it: a [`callback::Callback`] owns one handler, the
//! [`callback::CallbackMap`] couples each handler's liveness to an explicit
//! registry entry, and the builders bind a pending handler to the native
//! object they describe, registering both together.

pub mod application;
pub mod callback;
pub mod error;
pub mod media;
pub mod menu;
pub mod options;
pub mod payload;
pub mod prelude;
pub mod registration;
pub mod shortcut;
pub mod tray;
