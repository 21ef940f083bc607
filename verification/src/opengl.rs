//! The GPU-side entities of a renderer, as plain bookkeeping: handle
//! records for the compiled shaders and the cross-fade program, and the
//! exact full-screen quad geometry the program draws.
//!
//! The GL calls that create and use these handles live outside the
//! library; what is verified here is the data they are fed: four vertices
//! of interleaved clip-space position and texture coordinate, and the six
//! indices of the two triangles covering the screen.

use vstd::prelude::*;

verus! {

/// A compiled vertex or fragment shader, by its GPU handle.
#[derive(Debug, Clone, Copy, PartialEq, Eq, Structural)]
pub struct Shader {
    pub id: u32,
}

impl Shader {
    pub fn new(id: u32) -> (s: Shader)
        ensures
            s.id == id,
    {
        Shader { id }
    }

    pub fn id(&self) -> (i: u32)
        ensures
            i == self.id,
    {
        self.id
    }
}

/// The linked cross-fade program: its handle and the two shaders it was
/// linked from.
#[derive(Debug, Clone, Copy, PartialEq, Eq, Structural)]
pub struct Program {
    pub id: u32,
    pub vertex_shader: Shader,
    pub fragment_shader: Shader,
}

/// The GPU objects one renderer owns: vertex array, vertex and element
/// buffers, the two texture slots fading from and to, and the program.
#[derive(Debug, Clone, Copy, PartialEq, Eq, Structural)]
pub struct Context {
    pub vao: u32,
    pub vbo: u32,
    pub ebo: u32,
    pub tex_from: u32,
    pub tex_to: u32,
    pub shader_program: Program,
}

/// The full-screen quad, interleaved as position x, position y, texture u,
/// texture v per vertex: top-left, top-right, bottom-right, bottom-left in
/// clip space, with texture (0, 0) at the top-left and (1, 1) at the
/// bottom-right.
pub fn quad_vertices() -> (v: Vec<i8>)
    ensures
        v@ =~= seq![
            -1i8, 1i8, 0i8, 0i8,
            1i8, 1i8, 1i8, 0i8,
            1i8, -1i8, 1i8, 1i8,
            -1i8, -1i8, 0i8, 1i8,
        ],
{
    let mut v: Vec<i8> = Vec::new();
    v.push(-1);
    v.push(1);
    v.push(0);
    v.push(0);
    v.push(1);
    v.push(1);
    v.push(1);
    v.push(0);
    v.push(1);
    v.push(-1);
    v.push(1);
    v.push(1);
    v.push(-1);
    v.push(-1);
    v.push(0);
    v.push(1);
    v
}

/// The two triangles covering the quad: the upper right half and the lower
/// left half, in index order.
pub fn quad_indices() -> (v: Vec<u32>)
    ensures
        v@ =~= seq![0u32, 1u32, 2u32, 0u32, 2u32, 3u32],
{
    let mut v: Vec<u32> = Vec::new();
    v.push(0);
    v.push(1);
    v.push(2);
    v.push(0);
    v.push(2);
    v.push(3);
    v
}

} // verus!
