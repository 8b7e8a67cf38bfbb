//! Layout of a texture atlas: a rectangular surface cut into indexed
//! sections, generated as a uniform grid or appended one by one, with an
//! optional lookup from texture identities to section indices.
pub mod geometry;
pub mod grid;
pub mod layout;
pub mod texture_index;
