//! A ranged, buffered, seekable reader over objects that a storage backend
//! serves one byte range at a time.

pub mod range;
pub mod seek;
pub mod model;
pub mod state;
pub mod backend;
pub mod laws;
pub mod reader;
pub mod action;
pub mod input;
pub mod checker;
pub mod replay;
