//! Reads the line-oriented PLA scheduling format into entries with typed
//! sub-records, and finds entries by their number.

pub mod pla;
