//! The vertex buffer of the cartridge's display list.

use vstd::prelude::*;
use crate::constants::VR_MAX_VERTS;

verus! {

#[derive(Clone, Copy, Debug, PartialEq, Eq, Structural)]
pub struct Vertex {
    pub coords: u8,
}

#[derive(Clone, Copy, Debug)]
pub struct VertexBuffer {
    pub verts: [Vertex; VR_MAX_VERTS],
}

} // verus!
