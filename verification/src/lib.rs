//! The engine of an interactive SQL workbench for the terminal.
//!
//! The crate holds the decisions of the workbench as verified code: how a
//! key press is interpreted in each interaction mode, how a large result
//! table is cut down to the rows and columns that fit on screen, how the
//! active credential rotates, and how a query result becomes a table of
//! strings. Drawing, reading input and talking to a database are left to the
//! program that embeds the engine.

pub mod color;
pub mod config;
pub mod file_action;
pub mod input_line;
pub mod keys;
pub mod layout;
pub mod query;
pub mod state;
pub mod tab;
pub mod table;
pub mod text;
pub mod tui;
pub mod viewport;
