//! A clipboard dispatch layer for Linux, abstracting over the Wayland and
//! X11 backends.
//!
//! The host windowing layer hands in a display handle tagged with the
//! windowing system it belongs to. [`select_backend`] inspects that tag and
//! decides which backend serves the connection: Wayland when the handle is a
//! Wayland handle and Wayland support is compiled in, X11 otherwise. The
//! resulting [`ClipboardConnection`] exposes the four clipboard operations — read,
//! write, and their primary-selection counterparts — uniformly over either
//! backend, and normalizes every backend failure into one [`Error`] kind.
//!
//! The clipboard protocols themselves live in the backend libraries; this
//! layer only selects, adapts, and forwards.

mod clipboard;
mod error;
mod select;

pub use clipboard::ClipboardConnection;
pub use clipboard::into_operation_result;
pub use error::Error;
pub use select::Backend;
pub use select::BackendConfig;
pub use select::HandleKind;
pub use select::lemma_backend_exclusivity;
pub use select::lemma_fallback_policy;
pub use select::select_backend;
pub use select::spec_covers;
pub use select::spec_select;
