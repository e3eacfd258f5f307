//! GPU resource lifecycle and render submission for a spinning cube and a
//! loaded mesh.
//!
//! The crate decides; it does not act. Compiling and linking shaders,
//! uploading geometry, drawing and tearing down are each a value: the
//! commands for the graphics driver, in order, and what to do with its
//! answers. The caller performs the commands on a current graphics context.
//! Numbers with a fraction are carried as IEEE 754 single-precision bit
//! patterns and are never computed with here.

use vstd::prelude::*;

pub mod command;
pub mod job;
pub mod shader;
pub mod link_laws;
pub mod geometry;
pub mod cube;
pub mod model;
pub mod lifecycle;
pub mod bindings;

use crate::command::Mat4;

verus! {

/// What the camera sees this frame. A renderable reads it and keeps nothing
/// of it.
#[derive(Clone, Copy, Debug, PartialEq, Eq)]
pub struct RenderContext {
    pub projection: Mat4,
    pub view: Mat4,
    /// The camera's place in the world, where the lighting needs it.
    pub cam_loc: Option<[u32; 3]>,
}

impl RenderContext {
    /// The context of a frame.
    pub fn new(projection: Mat4, view: Mat4, cam_loc: Option<[u32; 3]>) -> (context: Self)
        ensures
            context == (RenderContext { projection, view, cam_loc }),
    {
        RenderContext { projection, view, cam_loc }
    }
}

} // verus!
