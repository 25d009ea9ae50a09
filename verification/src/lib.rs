//! A vim-style terminal client for browsing a MySQL server.
//!
//! The crate is organised around a four-state view machine: a catalogue
//! browser (databases, tables, a bounded row prefix of one table) and a SQL
//! editor with a readline-style history. Everything that decides or computes
//! lives here, verified; terminal drawing and the wire protocol live in the
//! surrounding binary.

pub mod connection_config;
pub mod connection_ui;
pub mod controller;
pub mod cursor;
pub mod database;
pub mod editor;
pub mod laws;
pub mod navigation;
pub mod navigation_ops;
pub mod numfmt;
pub mod strops;
pub mod ui;
pub mod ui_text;
pub mod user_config;

use vstd::prelude::*;

verus! {

/// Selected-row cursor shared by the list and table views: an optional
/// index, which the navigation state keeps inside the backing sequence.
pub use cursor::ListCursor;

} // verus!
