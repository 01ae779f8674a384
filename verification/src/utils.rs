//! Helpers for the records' text.

pub mod unicode_string;
