//! Core of a single-window webview shell: the resource protocol that answers
//! requests made under the application's own URL scheme, and the lifecycle
//! state machine that owns the one webview of the process.
//!
//! Everything here works on plain values. Opening windows, pumping platform
//! events and touching the filesystem are left to the program that embeds
//! this crate; it hands the outcomes in and acts on what it gets back.

pub mod entry;
pub mod handler;
pub mod lifecycle;
pub mod mime;
pub mod platform;
pub mod request;
pub mod resolver;
pub mod response;
pub mod webview;
