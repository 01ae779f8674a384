//! Bridge between a queue of pending shelf-label updates and the label
//! server that displays them: the record transformer, the three-step update
//! protocol, the polling engine and its supervisor, each as verified
//! decisions over plain values.

pub mod model;
pub mod services;
pub mod settings;
pub mod supervisor;
pub mod text;
pub mod utils;
