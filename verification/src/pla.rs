//! The PLA format: one numbered entry header per block, each followed by the
//! command lines that belong to it.

pub mod command;
pub mod date;
pub mod entry;
pub mod error;
pub mod laws;
pub mod parser;
pub mod pattern;
pub mod sub_blocks;
pub mod text;
