//! A growable array that can always hand out a mutable slot at any index,
//! growing itself with default values when the index lies past the end.

pub mod buffer;
pub mod index;
pub mod laws;
