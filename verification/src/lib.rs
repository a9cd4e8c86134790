//! Verified core of a desktop tray client for the Hermes Agent API server:
//! connection status, request building and reply interpretation for the
//! agent's HTTP API, settings, and the tray and shortcut decisions.

pub mod api;
pub mod api_laws;
pub mod config;
pub mod json;
pub mod shortcut;
pub mod status;
pub mod text;
