//! Session controller of a terminal explorer for graph datasets.
//!
//! The user edits a query in the upper pane and sees the rows that it yields
//! in the lower one. This crate holds what decides: the query buffer and its
//! height, the two input modes and the keys that each of them accepts, the
//! bridge to the query engine, and the composition of the two panes. Reading
//! the keyboard and painting the terminal are left to the program around it.

pub mod app;
pub mod engine;
pub mod input;
pub mod layout;
pub mod mode;
pub mod query;
pub mod view;

pub use app::App;
pub use input::{Event, KeyCode, KeyEvent, KeyEventKind};
pub use mode::Mode;
pub use query::Query;
