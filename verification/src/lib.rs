use vstd::prelude::*;

pub mod container;
pub mod fingerprint;
pub mod handles;
pub mod laws;
pub mod transform;

pub use container::FontsContainer;
pub use fingerprint::{generate_fingerprint, FontDescriptor};
pub use handles::{Buffer, BufferRef, Font, Fonts};
pub use transform::Transform;

verus! {

/// A glyph produced by shaping: glyph id, source cluster, advances and offsets.
#[derive(Debug, Copy, Clone, PartialEq, Eq, Structural)]
pub struct GlyphPosition {
    pub id: u32,
    pub cluster: u32,
    pub x_advance: i32,
    pub y_advance: i32,
    pub x_offset: i32,
    pub y_offset: i32,
}

} // verus!
