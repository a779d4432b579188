use crate::color::Color;
use crate::math::Vec2;
use vstd::prelude::*;

verus! {

/// One corner of a triangle: where it lies, which texel it samples and the
/// colour it is tinted with.
#[derive(Clone, Copy, PartialEq, Eq, Debug)]
pub struct Vertex {
    pub pos: Vec2,
    pub uv: (u16, u16),
    pub color: Color,
}

/// Triangles ready for a renderer: each three consecutive indices name the
/// corners of one.
#[derive(Clone, PartialEq, Eq, Debug)]
pub struct Mesh {
    pub indices: Vec<u32>,
    pub vertices: Vec<Vertex>,
}

/// What a `Mesh` holds, as plain sequences.
pub struct MeshView {
    pub indices: Seq<u32>,
    pub vertices: Seq<Vertex>,
}

impl View for Mesh {
    type V = MeshView;

    open spec fn view(&self) -> MeshView {
        MeshView { indices: self.indices@, vertices: self.vertices@ }
    }
}

} // verus!
