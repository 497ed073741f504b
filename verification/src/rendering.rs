//! The primitive model: vertices, triangles, quads, and the draw call that a
//! batch hands to the graphics backend.

use vstd::prelude::*;

pub mod batch;
pub mod control;
pub mod slots;

verus! {

/// One vertex of a primitive.
///
/// The components of position, color and UV are 32-bit words, each the bit
/// pattern of the 32-bit float that the backend reads at that place of the
/// vertex record. The texture reference is the texture's integer id, and it
/// counts only where `has_texture` is set; in the record the id stands as
/// that integer and the flag as 1 or 0.
#[derive(Clone, Copy, Debug, PartialEq, Eq)]
pub struct Vertex {
    pub pos: (u32, u32, u32),
    pub color: (u32, u32, u32, u32),
    pub uv: (u32, u32),
    pub texture: u32,
    pub has_texture: bool,
}

/// Three vertices, in the winding order that the backend expects.
#[derive(Clone, Copy, Debug, PartialEq, Eq)]
pub struct Triangle {
    pub points: [Vertex; 3],
}

/// Four vertices, drawn as the two triangles 0-1-2 and 2-3-0.
#[derive(Clone, Copy, Debug, PartialEq, Eq)]
pub struct Quad {
    pub points: [Vertex; 4],
}

/// What a batch hands to the graphics backend for one draw: the filled part
/// of its buffers, the handles of the GPU buffers to upload them into, the
/// number of indices to draw, the shader, and the offscreen target if the
/// draw does not go to the default framebuffer.
#[derive(Clone, Debug, PartialEq, Eq)]
pub struct DrawCall {
    pub vertices: Vec<u32>,
    pub indices: Vec<u32>,
    pub textures: Vec<u32>,
    pub vbo: u32,
    pub ibo: u32,
    pub amount: u32,
    pub shader: u32,
    pub target: Option<u32>,
}

/// A draw call as mathematical data.
pub struct DrawCallView {
    pub vertices: Seq<u32>,
    pub indices: Seq<u32>,
    pub textures: Seq<u32>,
    pub vbo: u32,
    pub ibo: u32,
    pub amount: nat,
    pub shader: u32,
    pub target: Option<u32>,
}

impl View for DrawCall {
    type V = DrawCallView;

    open spec fn view(&self) -> DrawCallView {
        DrawCallView {
            vertices: self.vertices@,
            indices: self.indices@,
            textures: self.textures@,
            vbo: self.vbo,
            ibo: self.ibo,
            amount: self.amount as nat,
            shader: self.shader,
            target: self.target,
        }
    }
}

} // verus!
