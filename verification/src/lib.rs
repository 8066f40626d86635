//! A structural model and bidirectional codec for the block subtree of the
//! Scratch project file format: position-dependent JSON arrays and objects on
//! one side, strongly typed block records on the other.

pub mod dec;
pub mod enc;
pub mod error;
pub mod json;
pub mod laws;
pub mod model;
pub mod text;
