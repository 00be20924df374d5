//! An embeddable GUI bridge for a host-owned control surface: a web-rendered
//! interface is shown inside a window region supplied by the host, and a
//! message relay keeps interface-driven edits synchronized with the host.
//!
//! The crate models the editor lifecycle, the shared editor context with its
//! inbound message queue, the timer-token registry that drives the frame pump,
//! the wire protocol between the native side and the page, and the asset
//! protocol that serves the page's files.

pub mod assets;
pub mod context;
pub mod editor;
pub mod json;
pub mod lifecycle;
pub mod msg;
pub mod timers;
pub mod wire;
