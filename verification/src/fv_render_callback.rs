//! The unit of work of one frame.
use crate::fv_renderer::{draw_of, write_of, Command, FvRenderer, GpuCommand};
use crate::uniforms::Uniforms;
use vstd::prelude::*;

verus! {

/// What one frame hands to the render pass: the uniform block as it stood
/// when the frame was laid out.
#[derive(Clone, Copy, Debug, PartialEq, Eq)]
pub struct FvRenderCallback {
    pub uniforms: Uniforms,
}

impl FvRenderCallback {
    /// The first command of the frame: the write of this frame's block.
    pub fn prepare(&self, renderer: &FvRenderer) -> (command: GpuCommand)
        ensures
            command@ == write_of(self.uniforms),
    {
        renderer.prepare(self)
    }

    /// The second command of the frame: the draw. It is the same whatever the
    /// callback and the renderer hold: group 0, six vertices, once.
    pub fn paint(&self, renderer: &FvRenderer) -> (command: GpuCommand)
        ensures
            command@ == draw_of(),
            command@ == (Command::Draw {
                bind_group: 0,
                first_vertex: 0,
                vertex_count: 6,
                first_instance: 0,
                instance_count: 1,
            }),
    {
        renderer.paint()
    }
}

} // verus!
