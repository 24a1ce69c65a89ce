//! Core logic of a small interactive terminal file browser.
//!
//! The crate models the state of the browser — the snapshot of one
//! directory's entries, the current path, and the modal overlay used for
//! delete confirmation and rename input — and the state machine that
//! interprets user commands against it.  All filesystem and terminal I/O
//! is left to the host program, which performs the [`Effect`]s this
//! library requests and hands the results back as plain values.
//!
//! [`Effect`]: controller::Effect

pub mod controller;
pub mod layout;
pub mod listing;
pub mod paths;
pub mod size_display;
pub mod str_ops;
pub mod tabs;
