//! Reconciles physical display topology and laptop-lid state into a concrete
//! multi-monitor layout for the Hyprland compositor.
//!
//! The library holds the pure reconciliation engine: the catalog of known
//! displays, the topology classifier, the layout generator, and the parsers
//! for the lid-state protocols. All I/O (compositor IPC, the acpid socket,
//! the lid state file) lives outside the library and hands in plain values.

pub mod apply;
pub mod catalog;
pub mod classify;
pub mod layout;
pub mod lid;
pub mod reconcile;
pub mod text;
