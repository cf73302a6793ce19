//! A versioned binary envelope: a fixed header of a type identifier and a
//! schema version, followed by a payload serialized with rkyv.

pub mod error;
pub mod header;
pub mod envelope;
pub mod identity;
pub mod generate;
