//! A personal to-do list: tasks are added, removed, replaced and listed by
//! instructions, and the list is kept between runs as a JSON snapshot.
//!
//! The library is verified with Verus. What it takes on trust is gathered in
//! the module `json`: what `serde_json` reads and writes. The library itself
//! opens no file and prints nothing: it takes and returns plain values, and a
//! program around it does the reading and the printing.

pub mod api;
pub mod cli;
pub mod json;
pub mod laws;
pub mod snapshot;

pub use api::{IndexOutOfRange, Instruction, Listing, ToDoList};
pub use cli::{parse, parse_index, Matches, ParseError};
pub use snapshot::FormatError;
