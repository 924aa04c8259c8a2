//! The ordered log of backend operations that interpreting a display list
//! produces, with the vertex and pixel data they refer to.
use vstd::prelude::*;
use crate::rdp::Rect;
use crate::render_mode::{BlendState, CompareFunction};
use crate::rsp::StagingVertex;

verus! {

/// One backend operation.
#[derive(Clone, Copy, Debug, PartialEq, Eq, Structural)]
pub enum GfxCommand {
    SetDepthCompare(CompareFunction),
    SetDepthWrite(bool),
    SetDepthTest(bool),
    SetPolygonOffset(bool),
    SetBlendState(BlendState),
    SetViewport(Rect),
    SetScissor(Rect),
    SetSamplerParameters { slot: u8, linear_filter: bool, cms: u8, cmt: u8 },
    /// Uploads the pixels `pixels` (an index into `RcpOutput::pixel_data`) as
    /// texture `handle`, bound to `slot`.
    UploadTexture { slot: u8, handle: u32, width: u32, height: u32, pixels: usize },
    /// Binds the already uploaded texture `handle` to `slot`.
    BindTexture { slot: u8, handle: u32 },
    CreateShader(u32),
    UnloadShader(u32),
    UseShader(u32),
    /// Draws `triangle_count` triangles whose vertices are batch `batch` (an
    /// index into `RcpOutput::vertex_batches`), three per triangle.
    DrawTriangles { batch: usize, triangle_count: usize },
}

/// The triangle counts of the draws in `cmds`, in order.
pub open spec fn draw_counts(cmds: Seq<GfxCommand>) -> Seq<nat>
    decreases cmds.len(),
{
    if cmds.len() == 0 {
        seq![]
    } else {
        let prev = draw_counts(cmds.drop_last());
        match cmds.last() {
            GfxCommand::DrawTriangles { triangle_count, .. } => prev.push(triangle_count as nat),
            _ => prev,
        }
    }
}

/// Sum of a sequence of counts.
pub open spec fn total(s: Seq<nat>) -> nat
    decreases s.len(),
{
    if s.len() == 0 {
        0
    } else {
        total(s.drop_last()) + s.last()
    }
}

/// Backend operations in the order they were issued, with their data.
pub struct RcpOutput {
    pub commands: Vec<GfxCommand>,
    pub vertex_batches: Vec<Vec<StagingVertex>>,
    pub pixel_data: Vec<Vec<u8>>,
}

impl RcpOutput {
    /// An empty log.
    pub fn new() -> (r: Self)
        ensures
            r.commands@ == Seq::<GfxCommand>::empty(),
            r.vertex_batches@ == Seq::<Vec<StagingVertex>>::empty(),
            r.pixel_data@ == Seq::<Vec<u8>>::empty(),
    {
        RcpOutput { commands: Vec::new(), vertex_batches: Vec::new(), pixel_data: Vec::new() }
    }

    /// Appends a command that carries no data.
    pub fn push(&mut self, c: GfxCommand)
        ensures
            final(self).commands@ == old(self).commands@.push(c),
            final(self).vertex_batches == old(self).vertex_batches,
            final(self).pixel_data == old(self).pixel_data,
    {
        self.commands.push(c);
    }

    /// Appends a draw of the triangles of `vertices`.
    pub fn push_draw(&mut self, vertices: Vec<StagingVertex>, triangle_count: usize)
        ensures
            final(self).commands@ == old(self).commands@.push(
                GfxCommand::DrawTriangles { batch: old(self).vertex_batches@.len() as usize, triangle_count },
            ),
            final(self).vertex_batches@ == old(self).vertex_batches@.push(vertices),
            final(self).pixel_data == old(self).pixel_data,
    {
        let batch = self.vertex_batches.len();
        self.vertex_batches.push(vertices);
        self.commands.push(GfxCommand::DrawTriangles { batch, triangle_count });
    }

    /// Appends an upload of `pixels` as texture `handle` bound to `slot`.
    pub fn push_upload(&mut self, slot: u8, handle: u32, width: u32, height: u32, pixels: Vec<u8>)
        ensures
            final(self).commands@ == old(self).commands@.push(
                GfxCommand::UploadTexture { slot, handle, width, height, pixels: old(self).pixel_data@.len() as usize },
            ),
            final(self).pixel_data@ == old(self).pixel_data@.push(pixels),
            final(self).vertex_batches == old(self).vertex_batches,
    {
        let index = self.pixel_data.len();
        self.pixel_data.push(pixels);
        self.commands.push(
            GfxCommand::UploadTexture { slot, handle, width, height, pixels: index },
        );
    }
}

} // verus!
