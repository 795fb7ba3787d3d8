//! Core logic of a desktop shell that embeds a remote web application:
//! URL normalization and deep-link resolution, a single always-on-top
//! preference, and the tray-menu state machine that drives the windows.

pub mod dispatch;
pub mod prefs;
pub mod resolver;
pub mod text;
