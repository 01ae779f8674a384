//! The three calls of the update protocol against the label server.

pub mod item;
pub mod labels;
pub mod status;
