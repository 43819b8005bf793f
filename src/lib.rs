//! Turns the geometry of a COLLADA document into flat vertex and index lists
//! ready for a mesh builder.
//!
//! The document is modelled by the types of [`document`]. Attribute values are
//! carried as an opaque `T: Copy`: the decoder never looks inside them, it only
//! moves them from a source array into vertex records.
pub mod document;
pub mod text;
pub mod lookup;
pub mod accessor;
pub mod polylist;
pub mod locate;
