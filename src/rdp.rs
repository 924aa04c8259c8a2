//! The rasterizer stage: render-mode registers, tiles, caches, the triangle
//! batch, and the state diff that decides when the batch is flushed.
use vstd::prelude::*;
use std::collections::HashMap;
use crate::combiner::{
    generate_combiner, shader_id_for, ColorCombiner, ColorCombinerManager, CombineParams,
};
use crate::output::{draw_counts, total, GfxCommand, RcpOutput};
use crate::render_mode::{
    blend_state_of, depth_compare_of, depth_write_of, polygon_offset_of, translate_blend_mode,
    translate_depth_compare, translate_depth_write, translate_polygon_offset, BlendComponent,
    BlendFactor, BlendState, CompareFunction,
};
use crate::rsp::{RspError, StagingVertex, G_ZBUFFER};
use crate::texture_cache::{Texture, TextureManager, TEXTURE_CACHE_MAX_SIZE};

verus! {

/// Capacity of the triangle batch, in triangles.
pub const MAX_VBO_SIZE: usize = 256;
/// Number of tile descriptors.
pub const NUM_TILE_DESCRIPTORS: usize = 8;
/// Width of the console's screen, in pixels.
pub const SCREEN_WIDTH: u32 = 320;
/// Height of the console's screen, in pixels.
pub const SCREEN_HEIGHT: u32 = 240;

/// A rectangle on the output surface.
#[derive(Clone, Copy, Debug, PartialEq, Eq, Structural)]
pub struct Rect {
    pub x: u16,
    pub y: u16,
    pub width: u16,
    pub height: u16,
}

impl Rect {
    pub fn new(x: u16, y: u16, width: u16, height: u16) -> (r: Self)
        ensures
            r == (Rect { x, y, width, height }),
    {
        Rect { x, y, width, height }
    }

    pub open spec fn zero_spec() -> Self {
        Rect { x: 0, y: 0, width: 0, height: 0 }
    }

    /// The empty rectangle at the origin.
    pub fn zero() -> (r: Self)
        ensures
            r == Rect::zero_spec(),
    {
        Rect { x: 0, y: 0, width: 0, height: 0 }
    }
}

/// Size of the output surface, in pixels.
#[derive(Clone, Copy, Debug, PartialEq, Eq, Structural)]
pub struct OutputDimensions {
    pub width: u32,
    pub height: u32,
}

/// Where the data of a texture slot (or of a palette) lies in memory.
#[derive(Clone, Copy, Debug, PartialEq, Eq, Structural)]
pub struct TMEMMapEntry {
    pub address: usize,
}

impl TMEMMapEntry {
    pub fn new(address: usize) -> (r: Self)
        ensures
            r.address == address,
    {
        Self { address }
    }
}

/// One tile descriptor: how a region of texture memory is sampled.
/// Coordinates are in 10.2 fixed point.
#[derive(Clone, Copy, Debug, PartialEq, Eq, Structural)]
pub struct TileDescriptor {
    pub fmt: u8,
    pub siz: u8,
    pub line: u16,
    pub tmem: u16,
    pub palette: u8,
    pub cms: u8,
    pub cmt: u8,
    pub uls: u16,
    pub ult: u16,
    pub lrs: u16,
    pub lrt: u16,
}

/// Texels between two 10.2 fixed-point coordinates, bounds included
/// (zero when they are reversed).
pub open spec fn extent(lo: u16, hi: u16) -> u32 {
    if hi >= lo {
        ((hi - lo) / 4 + 1) as u32
    } else {
        0
    }
}

impl TileDescriptor {
    pub open spec fn empty_spec() -> Self {
        TileDescriptor {
            fmt: 0,
            siz: 0,
            line: 0,
            tmem: 0,
            palette: 0,
            cms: 0,
            cmt: 0,
            uls: 0,
            ult: 0,
            lrs: 0,
            lrt: 0,
        }
    }

    pub fn empty() -> (r: Self)
        ensures
            r == TileDescriptor::empty_spec(),
    {
        TileDescriptor {
            fmt: 0,
            siz: 0,
            line: 0,
            tmem: 0,
            palette: 0,
            cms: 0,
            cmt: 0,
            uls: 0,
            ult: 0,
            lrs: 0,
            lrt: 0,
        }
    }

    /// Width of the tile in texels.
    pub fn get_width(&self) -> (r: u32)
        ensures
            r == extent(self.uls, self.lrs),
    {
        if self.lrs >= self.uls {
            ((self.lrs - self.uls) / 4 + 1) as u32
        } else {
            0
        }
    }

    /// Height of the tile in texels.
    pub fn get_height(&self) -> (r: u32)
        ensures
            r == extent(self.ult, self.lrt),
    {
        if self.lrt >= self.ult {
            ((self.lrt - self.ult) / 4 + 1) as u32
        } else {
            0
        }
    }
}

/// Which tile texturing starts from, and whether texturing is on.
#[derive(Clone, Copy, Debug, PartialEq, Eq, Structural)]
pub struct TextureState {
    pub tile: u8,
    pub on: bool,
}

/// The texture image most recently named by the command stream.
#[derive(Clone, Copy, Debug, PartialEq, Eq, Structural)]
pub struct TextureImageState {
    pub fmt: u8,
    pub siz: u8,
    pub width: u16,
    pub address: usize,
}

/// The last state submitted to the backend.
#[derive(Clone, Copy, Debug)]
pub struct RenderingState {
    pub depth_compare: CompareFunction,
    pub depth_test: bool,
    pub depth_write: bool,
    pub polygon_offset: bool,
    pub blend_state: BlendState,
    pub viewport: Rect,
    pub scissor: Rect,
    pub shader_program: Option<u32>,
    pub textures: [Texture; 2],
}

/// A fault met while interpreting; none of them stops the interpretation.
#[derive(Clone, Copy, Debug, PartialEq, Eq, Structural)]
pub enum RdpError {
    /// A tile whose (format, size) pair has no decoder; a placeholder
    /// texture is bound instead.
    UnsupportedTextureFormat { fmt: u8, siz: u8 },
    /// Texture or palette data that lies past the end of memory; a
    /// placeholder texture is bound instead.
    TextureOutOfBounds { address: usize },
    /// No memory is mapped for a texture slot or palette.
    MissingTmemEntry(u16),
    /// Mip-mapping was asked for; it is not emulated and is ignored.
    MipMappingUnsupported,
    /// A tile descriptor index past the eight descriptors.
    TileOutOfRange(u8),
    /// A tile too large to decode; a placeholder texture is bound instead.
    TextureTooLarge { width: u32, height: u32 },
    /// A geometry command that was refused; it was skipped.
    Geometry(RspError),
    /// A command whose opcode has no handler; it was skipped.
    UnknownOpcode(u8),
    /// A command whose arguments lie past the end of memory; it was skipped.
    ArgumentsOutOfBounds { address: usize },
}

/// The rasterizer stage.
pub struct RDP {
    pub output_dimensions: OutputDimensions,
    pub rendering_state: RenderingState,
    pub texture_manager: TextureManager,
    pub texture_state: TextureState,
    pub texture_image_state: TextureImageState,
    pub tile_descriptors: Vec<TileDescriptor>,
    pub tmem_map: HashMap<u16, TMEMMapEntry>,
    pub textures_changed: [bool; 2],
    pub color_combiner_manager: ColorCombinerManager,
    pub viewport: Rect,
    pub scissor: Rect,
    pub viewport_or_scissor_changed: bool,
    pub combine: CombineParams,
    pub cc_id: u32,
    pub other_mode_l: u32,
    pub other_mode_h: u32,
    pub buf_vbo: Vec<StagingVertex>,
    pub buf_vbo_num_tris: usize,
    pub loaded_shaders: Vec<u32>,
    pub next_texture_handle: u32,
    pub output: RcpOutput,
    pub errors: Vec<RdpError>,
}

/// The batch model: triangle counts of the draws issued, and the triangles
/// waiting in the batch.
pub open spec fn batch_step(draws: Seq<nat>, pending: nat) -> (Seq<nat>, nat) {
    if pending >= MAX_VBO_SIZE {
        (draws.push(pending), 1)
    } else {
        (draws, pending + 1)
    }
}

impl RDP {
    pub open spec fn wf(&self) -> bool {
        &&& self.tile_descriptors@.len() == NUM_TILE_DESCRIPTORS
        &&& self.texture_state.tile < NUM_TILE_DESCRIPTORS
        &&& self.texture_manager.wf()
        &&& self.buf_vbo_num_tris <= MAX_VBO_SIZE
        &&& self.buf_vbo@.len() == 3 * self.buf_vbo_num_tris
    }

    /// `b` is `a` with another batch and output.
    pub open spec fn same_but_batch(a: &RDP, b: &RDP) -> bool {
        (RDP { buf_vbo: b.buf_vbo, buf_vbo_num_tris: b.buf_vbo_num_tris, output: b.output, ..*a })
            == *b
    }

    /// Triangle counts of the draws issued so far.
    pub open spec fn draws(&self) -> Seq<nat> {
        draw_counts(self.output.commands@)
    }

    /// What `flush` does to the output: one draw of the pending triangles,
    /// if there are any.
    pub open spec fn flushed_output(a: &RDP, b: &RDP) -> bool {
        if a.buf_vbo_num_tris > 0 {
            &&& b.output.commands@ == a.output.commands@.push(
                GfxCommand::DrawTriangles {
                    batch: a.output.vertex_batches@.len() as usize,
                    triangle_count: a.buf_vbo_num_tris,
                },
            )
            &&& b.output.vertex_batches@ == a.output.vertex_batches@.push(a.buf_vbo)
            &&& b.output.pixel_data == a.output.pixel_data
        } else {
            b.output == a.output
        }
    }

    /// Submits the pending triangles as one draw and empties the batch.
    pub fn flush(&mut self)
        requires
            old(self).wf(),
        ensures
            final(self).wf(),
            RDP::same_but_batch(old(self), final(self)),
            RDP::flushed_output(old(self), final(self)),
            final(self).buf_vbo_num_tris == 0,
    {
        if self.buf_vbo_num_tris > 0 {
            let mut vertices: Vec<StagingVertex> = Vec::new();
            std::mem::swap(&mut vertices, &mut self.buf_vbo);
            self.output.push_draw(vertices, self.buf_vbo_num_tris);
            self.buf_vbo_num_tris = 0;
        }
    }

    /// Appends one triangle to the batch, flushing first when it is full.
    pub fn add_triangle(&mut self, v0: StagingVertex, v1: StagingVertex, v2: StagingVertex)
        requires
            old(self).wf(),
        ensures
            final(self).wf(),
            (final(self).draws(), final(self).buf_vbo_num_tris as nat) == batch_step(
                old(self).draws(),
                old(self).buf_vbo_num_tris as nat,
            ),
            old(self).buf_vbo_num_tris < MAX_VBO_SIZE ==> final(self).output == old(self).output
                && final(self).buf_vbo@ == old(self).buf_vbo@ + seq![v0, v1, v2],
            old(self).buf_vbo_num_tris >= MAX_VBO_SIZE ==> final(self).buf_vbo@ == seq![v0, v1, v2]
                && RDP::flushed_output(old(self), final(self)),
            triangle_added(old(self), v0, v1, v2, final(self)),
            RDP::same_but_batch(old(self), final(self)),
    {
        if self.buf_vbo_num_tris >= MAX_VBO_SIZE {
            self.flush();
            assert(self.output.commands@.drop_last() =~= old(self).output.commands@);
        }
        self.buf_vbo.push(v0);
        self.buf_vbo.push(v1);
        self.buf_vbo.push(v2);
        self.buf_vbo_num_tris = self.buf_vbo_num_tris + 1;
        proof {
            if old(self).buf_vbo_num_tris >= MAX_VBO_SIZE {
                assert(self.buf_vbo@ =~= seq![v0, v1, v2]);
            } else {
                assert(self.buf_vbo@ =~= old(self).buf_vbo@ + seq![v0, v1, v2]);
            }
        }
    }
}

/// The draw that flushing `a` issues, if its batch holds triangles.
pub open spec fn pending_draw(a: &RDP) -> Seq<GfxCommand> {
    if a.buf_vbo_num_tris > 0 {
        seq![
            GfxCommand::DrawTriangles {
                batch: a.output.vertex_batches@.len() as usize,
                triangle_count: a.buf_vbo_num_tris,
            },
        ]
    } else {
        seq![]
    }
}

/// The vertex batches of the output after flushing `a`.
pub open spec fn flushed_batches(a: &RDP) -> Seq<Vec<StagingVertex>> {
    if a.buf_vbo_num_tris > 0 {
        a.output.vertex_batches@.push(a.buf_vbo)
    } else {
        a.output.vertex_batches@
    }
}

/// `b` is `a` after the state changes `acc`: when there are any, the batch
/// was flushed once, before the first of them.
pub open spec fn emitted(a: &RDP, acc: Seq<GfxCommand>, b: &RDP) -> bool {
    if acc.len() == 0 {
        &&& b.output == a.output
        &&& b.buf_vbo == a.buf_vbo
        &&& b.buf_vbo_num_tris == a.buf_vbo_num_tris
    } else {
        &&& b.output.commands@ == a.output.commands@ + pending_draw(a) + acc
        &&& b.output.vertex_batches@ == flushed_batches(a)
        &&& b.output.pixel_data == a.output.pixel_data
        &&& b.buf_vbo_num_tris == 0
    }
}

/// `cmd` when `differs`, else nothing.
pub open spec fn change_if(differs: bool, cmd: GfxCommand) -> Seq<GfxCommand> {
    if differs {
        seq![cmd]
    } else {
        seq![]
    }
}

/// The depth comparison required under `mode_l`: the one it names when
/// comparison is on, else the current one.
pub open spec fn required_depth_compare(rs: RenderingState, mode_l: u32) -> CompareFunction {
    match depth_compare_of(mode_l) {
        Some(c) => c,
        None => rs.depth_compare,
    }
}

/// The viewport and scissor required of the backend.
pub open spec fn required_rects(a: &RDP) -> (Rect, Rect) {
    if a.viewport_or_scissor_changed {
        (a.viewport, a.scissor)
    } else {
        (a.rendering_state.viewport, a.rendering_state.scissor)
    }
}

/// The state changes that drawing under `a`'s registers and `geometry_mode`
/// requires, in the order they are submitted.
pub open spec fn render_state_changes(a: &RDP, geometry_mode: u32) -> Seq<GfxCommand> {
    state_diff(a.rendering_state, required_rendering_state(a, geometry_mode))
}

/// The rendering state after drawing under `a`'s registers and `geometry_mode`.
pub open spec fn required_rendering_state(a: &RDP, geometry_mode: u32) -> RenderingState {
    let rs = a.rendering_state;
    let l = a.other_mode_l;
    RenderingState {
        depth_test: geometry_mode & G_ZBUFFER != 0,
        depth_compare: required_depth_compare(rs, l),
        depth_write: depth_write_of(l),
        polygon_offset: polygon_offset_of(l),
        blend_state: blend_state_of(l),
        viewport: required_rects(a).0,
        scissor: required_rects(a).1,
        ..rs
    }
}

/// The commands that make shader `id` current, given the shaders the
/// backend has loaded and the one that is current.
pub open spec fn shader_load_commands(loaded: Seq<u32>, current: Option<u32>, id: u32) -> Seq<
    GfxCommand,
> {
    if loaded.contains(id) {
        seq![]
    } else {
        match current {
            Some(c) => seq![GfxCommand::UnloadShader(c), GfxCommand::CreateShader(id)],
            None => seq![GfxCommand::CreateShader(id)],
        }
    }
}

fn rect_eq(a: Rect, b: Rect) -> (r: bool)
    ensures
        r == (a == b),
{
    a.x == b.x && a.y == b.y && a.width == b.width && a.height == b.height
}

fn blend_eq(a: BlendState, b: BlendState) -> (r: bool)
    ensures
        r == (a == b),
{
    a.color.src_factor == b.color.src_factor && a.color.dst_factor == b.color.dst_factor
        && a.alpha.src_factor == b.alpha.src_factor && a.alpha.dst_factor == b.alpha.dst_factor
}

impl RDP {
    /// Submits a state change, flushing the batch before it.
    fn emit_change(&mut self, cmd: GfxCommand, Ghost(start): Ghost<RDP>, Ghost(acc): Ghost<Seq<GfxCommand>>)
        requires
            old(self).wf(),
            emitted(&start, acc, old(self)),
        ensures
            final(self).wf(),
            emitted(&start, acc.push(cmd), final(self)),
            RDP::same_but_batch(old(self), final(self)),
    {
        self.flush();
        self.output.push(cmd);
        assert(self.output.commands@ =~= start.output.commands@ + pending_draw(&start) + acc.push(cmd));
    }

    /// Submits the state changes `changes` in order, flushing the batch once
    /// before the first of them.
    fn apply_changes(&mut self, changes: &Vec<GfxCommand>)
        requires
            old(self).wf(),
        ensures
            final(self).wf(),
            emitted(old(self), changes@, final(self)),
            RDP::same_but_batch(old(self), final(self)),
    {
        let ghost start = *old(self);
        let mut i: usize = 0;
        assert(changes@.subrange(0, 0) =~= Seq::<GfxCommand>::empty());
        while i < changes.len()
            invariant
                i <= changes@.len(),
                self.wf(),
                emitted(&start, changes@.subrange(0, i as int), self),
                RDP::same_but_batch(&start, self),
            decreases changes@.len() - i,
        {
            self.emit_change(changes[i], Ghost(start), Ghost(changes@.subrange(0, i as int)));
            assert(changes@.subrange(0, i as int).push(changes@[i as int]) =~= changes@.subrange(0, i + 1));
            i += 1;
        }
        assert(changes@.subrange(0, i as int) =~= changes@);
    }

    /// Brings the backend's depth, blend, viewport and scissor state in line
    /// with the registers and `geometry_mode`. When anything differs, the
    /// batch is flushed once, before the first change, so that batched
    /// geometry is drawn under the state it was built for.
    pub fn update_render_state(&mut self, geometry_mode: u32)
        requires
            old(self).wf(),
        ensures
            final(self).wf(),
            emitted(old(self), render_state_changes(old(self), geometry_mode), final(self)),
            final(self).rendering_state == required_rendering_state(old(self), geometry_mode),
            !final(self).viewport_or_scissor_changed,
            (RDP {
                rendering_state: final(self).rendering_state,
                viewport_or_scissor_changed: final(self).viewport_or_scissor_changed,
                buf_vbo: final(self).buf_vbo,
                buf_vbo_num_tris: final(self).buf_vbo_num_tris,
                output: final(self).output,
                ..*old(self)
            }) == *final(self),
            render_state_updated(old(self), geometry_mode, final(self)),
    {
        let rs = self.rendering_state;
        let depth_compare = match translate_depth_compare(self.other_mode_l) {
            Some(dc) => dc,
            None => rs.depth_compare,
        };
        let (viewport, scissor) = if self.viewport_or_scissor_changed {
            (self.viewport, self.scissor)
        } else {
            (rs.viewport, rs.scissor)
        };
        let required = RenderingState {
            depth_test: geometry_mode & G_ZBUFFER != 0,
            depth_compare,
            depth_write: translate_depth_write(self.other_mode_l),
            polygon_offset: translate_polygon_offset(self.other_mode_l),
            blend_state: translate_blend_mode(self.other_mode_l),
            viewport,
            scissor,
            ..rs
        };
        let changes = state_diff_exec(&rs, &required);
        self.apply_changes(&changes);
        self.rendering_state = required;
        self.viewport_or_scissor_changed = false;
    }
}

/// `b` is `a` with other output, shaders and rendering state.
pub open spec fn same_but_shaders(a: &RDP, b: &RDP) -> bool {
    (RDP {
        output: b.output,
        loaded_shaders: b.loaded_shaders,
        rendering_state: b.rendering_state,
        ..*a
    }) == *b
}

/// What making shader `id` current does to `a`, giving `b`.
pub open spec fn shader_loaded(a: &RDP, id: u32, b: &RDP) -> bool {
    let known = a.loaded_shaders@.contains(id);
    &&& b.output.commands@ == a.output.commands@ + shader_load_commands(
        a.loaded_shaders@,
        a.rendering_state.shader_program,
        id,
    )
    &&& b.output.vertex_batches == a.output.vertex_batches
    &&& b.output.pixel_data == a.output.pixel_data
    &&& b.loaded_shaders@ == if known {
        a.loaded_shaders@
    } else {
        a.loaded_shaders@.push(id)
    }
    &&& b.rendering_state == if known {
        a.rendering_state
    } else {
        RenderingState { shader_program: Some(id), ..a.rendering_state }
    }
}

fn contains_id(v: &Vec<u32>, x: u32) -> (r: bool)
    ensures
        r == v@.contains(x),
{
    let mut i: usize = 0;
    while i < v.len()
        invariant
            i <= v@.len(),
            forall|j: int| 0 <= j < i ==> v@[j] != x,
        decreases v@.len() - i,
    {
        if v[i] == x {
            return true;
        }
        i += 1;
    }
    false
}

impl RDP {
    /// The handle of shader `shader_id`, loading it first when the backend
    /// does not have it. A new shader becomes current, after the current one
    /// is unloaded. Handles are shader ids.
    pub fn lookup_or_create_shader_program(&mut self, shader_id: u32) -> (r: u32)
        requires
            old(self).wf(),
        ensures
            final(self).wf(),
            r == shader_id,
            shader_loaded(old(self), shader_id, final(self)),
            same_but_shaders(old(self), final(self)),
    {
        if !contains_id(&self.loaded_shaders, shader_id) {
            match self.rendering_state.shader_program {
                Some(current) => self.output.push(GfxCommand::UnloadShader(current)),
                None => {},
            }
            self.output.push(GfxCommand::CreateShader(shader_id));
            self.loaded_shaders.push(shader_id);
            self.rendering_state.shader_program = Some(shader_id);
            assert(self.output.commands@ =~= old(self).output.commands@ + shader_load_commands(
                old(self).loaded_shaders@,
                old(self).rendering_state.shader_program,
                shader_id,
            ));
        } else {
            assert(self.output.commands@ =~= old(self).output.commands@ + shader_load_commands(
                old(self).loaded_shaders@,
                old(self).rendering_state.shader_program,
                shader_id,
            ));
        }
        shader_id
    }

    /// Generates and caches the combiner for `cc_id` from the current combine
    /// operands, loading its shader.
    pub fn generate_color_combiner(&mut self, cc_id: u32) -> (r: ColorCombiner)
        requires
            old(self).wf(),
        ensures
            final(self).wf(),
            r.cc_id == cc_id,
            r.shader_id == shader_id_for(cc_id, old(self).combine),
            r.shader_program == r.shader_id,
            r.color_inputs@ == crate::combiner::pass_inputs(false, old(self).combine.c0@),
            r.alpha_inputs@ == crate::combiner::pass_inputs(true, old(self).combine.a0@),
            shader_loaded(old(self), r.shader_id, final(self)),
            final(self).color_combiner_manager.view() == old(self).color_combiner_manager.view().insert(cc_id, r),
            final(self).color_combiner_manager.current_combiner == old(self).color_combiner_manager.current_combiner,
            (RDP {
                output: final(self).output,
                loaded_shaders: final(self).loaded_shaders,
                rendering_state: final(self).rendering_state,
                color_combiner_manager: final(self).color_combiner_manager,
                ..*old(self)
            }) == *final(self),
    {
        let generated = generate_combiner(cc_id, &self.combine, 0);
        let program = self.lookup_or_create_shader_program(generated.shader_id);
        let combiner = ColorCombiner { shader_program: program, ..generated };
        self.color_combiner_manager.insert(combiner);
        combiner
    }

    /// Flushes, generates and caches the combiner for `cc_id`, and makes it
    /// the current one.
    pub fn create_color_combiner(&mut self, cc_id: u32) -> (r: ColorCombiner)
        requires
            old(self).wf(),
        ensures
            final(self).wf(),
            r.cc_id == cc_id,
            r.shader_id == shader_id_for(cc_id, old(self).combine),
            r.shader_program == r.shader_id,
            r.color_inputs@ == crate::combiner::pass_inputs(false, old(self).combine.c0@),
            r.alpha_inputs@ == crate::combiner::pass_inputs(true, old(self).combine.a0@),
            final(self).output.commands@ == old(self).output.commands@ + pending_draw(old(self))
                + shader_load_commands(
                old(self).loaded_shaders@,
                old(self).rendering_state.shader_program,
                r.shader_id,
            ),
            final(self).output.vertex_batches@ == flushed_batches(old(self)),
            final(self).output.pixel_data == old(self).output.pixel_data,
            final(self).buf_vbo_num_tris == 0,
            final(self).color_combiner_manager.view() == old(self).color_combiner_manager.view().insert(cc_id, r),
            final(self).color_combiner_manager.current_combiner == Some(cc_id),
            final(self).loaded_shaders@ == if old(self).loaded_shaders@.contains(r.shader_id) {
                old(self).loaded_shaders@
            } else {
                old(self).loaded_shaders@.push(r.shader_id)
            },
            final(self).rendering_state == if old(self).loaded_shaders@.contains(r.shader_id) {
                old(self).rendering_state
            } else {
                RenderingState { shader_program: Some(r.shader_id), ..old(self).rendering_state }
            },
            final(self).rendering_state == (RenderingState {
                shader_program: final(self).rendering_state.shader_program,
                ..old(self).rendering_state
            }),
            (RDP {
                output: final(self).output,
                loaded_shaders: final(self).loaded_shaders,
                rendering_state: final(self).rendering_state,
                color_combiner_manager: final(self).color_combiner_manager,
                buf_vbo: final(self).buf_vbo,
                buf_vbo_num_tris: final(self).buf_vbo_num_tris,
                ..*old(self)
            }) == *final(self),
    {
        self.flush();
        let combiner = self.generate_color_combiner(cc_id);
        self.color_combiner_manager.current_combiner = Some(cc_id);
        assert(self.output.commands@ =~= old(self).output.commands@ + pending_draw(old(self))
            + shader_load_commands(old(self).loaded_shaders@, old(self).rendering_state.shader_program, combiner.shader_id));
        combiner
    }

    /// The combiner cached for `cc_id`; on a miss it is created as
    /// `create_color_combiner` does. A hit changes nothing.
    pub fn lookup_or_create_color_combiner(&mut self, cc_id: u32) -> (r: ColorCombiner)
        requires
            old(self).wf(),
        ensures
            final(self).wf(),
            r.cc_id == cc_id || old(self).color_combiner_manager.view().contains_key(cc_id),
            old(self).color_combiner_manager.view().contains_key(cc_id) ==> r
                == old(self).color_combiner_manager.view()[cc_id] && *final(self) == *old(self),
            !old(self).color_combiner_manager.view().contains_key(cc_id) ==> {
                &&& r.shader_id == shader_id_for(cc_id, old(self).combine)
                &&& r.shader_program == r.shader_id
                &&& r.color_inputs@ == crate::combiner::pass_inputs(false, old(self).combine.c0@)
                &&& r.alpha_inputs@ == crate::combiner::pass_inputs(true, old(self).combine.a0@)
                &&& final(self).output.commands@ == old(self).output.commands@ + pending_draw(
                    old(self),
                ) + shader_load_commands(
                    old(self).loaded_shaders@,
                    old(self).rendering_state.shader_program,
                    r.shader_id,
                )
                &&& final(self).output.vertex_batches@ == flushed_batches(old(self))
                &&& final(self).buf_vbo_num_tris == 0
                &&& final(self).color_combiner_manager.view()
                    == old(self).color_combiner_manager.view().insert(cc_id, r)
                &&& final(self).color_combiner_manager.current_combiner == Some(cc_id)
            },
            final(self).rendering_state == (RenderingState {
                shader_program: final(self).rendering_state.shader_program,
                ..old(self).rendering_state
            }),
            (RDP {
                output: final(self).output,
                loaded_shaders: final(self).loaded_shaders,
                rendering_state: final(self).rendering_state,
                color_combiner_manager: final(self).color_combiner_manager,
                buf_vbo: final(self).buf_vbo,
                buf_vbo_num_tris: final(self).buf_vbo_num_tris,
                ..*old(self)
            }) == *final(self),
            combiner_selected(old(self), cc_id, r, final(self)),
    {
        match self.color_combiner_manager.lookup_color_combiner(cc_id) {
            Some(c) => c,
            None => self.create_color_combiner(cc_id),
        }
    }
}


/// The state changes that take the backend from `rs` to `req`, in the order
/// they are submitted.
pub open spec fn state_diff(rs: RenderingState, req: RenderingState) -> Seq<GfxCommand> {
    change_if(req.depth_test != rs.depth_test, GfxCommand::SetDepthTest(req.depth_test))
        + change_if(req.depth_compare != rs.depth_compare, GfxCommand::SetDepthCompare(req.depth_compare))
        + change_if(req.depth_write != rs.depth_write, GfxCommand::SetDepthWrite(req.depth_write))
        + change_if(req.polygon_offset != rs.polygon_offset, GfxCommand::SetPolygonOffset(req.polygon_offset))
        + change_if(req.blend_state != rs.blend_state, GfxCommand::SetBlendState(req.blend_state))
        + change_if(req.viewport != rs.viewport, GfxCommand::SetViewport(req.viewport))
        + change_if(req.scissor != rs.scissor, GfxCommand::SetScissor(req.scissor))
}

fn push_if(r: &mut Vec<GfxCommand>, differs: bool, cmd: GfxCommand)
    ensures
        final(r)@ == old(r)@ + change_if(differs, cmd),
{
    if differs {
        r.push(cmd);
    }
    assert(final(r)@ =~= old(r)@ + change_if(differs, cmd));
}

fn state_diff_exec(rs: &RenderingState, req: &RenderingState) -> (r: Vec<GfxCommand>)
    ensures
        r@ == state_diff(*rs, *req),
{
    let mut r: Vec<GfxCommand> = Vec::new();
    push_if(&mut r, req.depth_test != rs.depth_test, GfxCommand::SetDepthTest(req.depth_test));
    assert(r@ =~= change_if(req.depth_test != rs.depth_test, GfxCommand::SetDepthTest(req.depth_test)));
    push_if(&mut r, req.depth_compare != rs.depth_compare, GfxCommand::SetDepthCompare(req.depth_compare));
    push_if(&mut r, req.depth_write != rs.depth_write, GfxCommand::SetDepthWrite(req.depth_write));
    push_if(&mut r, req.polygon_offset != rs.polygon_offset, GfxCommand::SetPolygonOffset(req.polygon_offset));
    push_if(&mut r, !blend_eq(req.blend_state, rs.blend_state), GfxCommand::SetBlendState(req.blend_state));
    push_if(&mut r, !rect_eq(req.viewport, rs.viewport), GfxCommand::SetViewport(req.viewport));
    push_if(&mut r, !rect_eq(req.scissor, rs.scissor), GfxCommand::SetScissor(req.scissor));
    r
}

/// The viewport as the command stream gives it: scale and translation, in
/// quarter pixels of the console's screen.
#[derive(Clone, Copy, Debug)]
pub struct Viewport {
    pub vscale: [i16; 4],
    pub vtrans: [i16; 4],
}

/// `num / den` rounded toward zero and saturated to `u16` (negative values
/// give zero).
pub open spec fn sat_div(num: int, den: int) -> u16 {
    if num <= 0 {
        0
    } else if num / den > 0xffff {
        0xffff
    } else {
        (num / den) as u16
    }
}

fn sat_div_exec(num: i64, den: i64) -> (r: u16)
    requires
        den > 0,
    ensures
        r == sat_div(num as int, den as int),
{
    if num <= 0 {
        0
    } else if num / den > 0xffff {
        0xffff
    } else {
        (num / den) as u16
    }
}

/// The viewport rectangle for `vp` on an output of `dims`: the console's
/// 320 by 240 screen scaled to the output.
pub open spec fn viewport_rect(vp: Viewport, dims: OutputDimensions) -> Rect {
    let w = dims.width as int;
    let h = dims.height as int;
    Rect {
        x: sat_div((vp.vtrans@[0] - vp.vscale@[0]) * w, 1280),
        y: sat_div((vp.vtrans@[1] - vp.vscale@[1]) * h, 960),
        width: sat_div(vp.vscale@[0] * w, 640),
        height: sat_div(vp.vscale@[1] * h, 480),
    }
}

/// The scissor rectangle for corners in 10.2 fixed point on an output of `dims`.
pub open spec fn scissor_rect(ulx: u16, uly: u16, lrx: u16, lry: u16, dims: OutputDimensions) -> Rect {
    let w = dims.width as int;
    let h = dims.height as int;
    Rect {
        x: sat_div(ulx * w, 1280),
        y: sat_div(uly * h, 960),
        width: sat_div((lrx - ulx) * w, 1280),
        height: sat_div((lry - uly) * h, 960),
    }
}

/// `b` is `a` at the start of a new frame: empty output, batch and fault
/// list; everything else kept.
pub open spec fn frame_started(a: &RDP, b: &RDP) -> bool {
    &&& b.output.commands@ == Seq::<GfxCommand>::empty()
    &&& b.output.vertex_batches@ == Seq::<Vec<StagingVertex>>::empty()
    &&& b.output.pixel_data@ == Seq::<Vec<u8>>::empty()
    &&& b.buf_vbo@ == Seq::<StagingVertex>::empty()
    &&& b.buf_vbo_num_tris == 0
    &&& b.errors@ == Seq::<RdpError>::empty()
    &&& (RDP {
        output: b.output,
        buf_vbo: b.buf_vbo,
        buf_vbo_num_tris: b.buf_vbo_num_tris,
        errors: b.errors,
        ..*a
    }) == *b
}

/// The state of a fresh rasterizer stage.
pub open spec fn initial_rendering_state() -> RenderingState {
    RenderingState {
        depth_compare: CompareFunction::Always,
        depth_test: false,
        depth_write: false,
        polygon_offset: false,
        blend_state: crate::render_mode::replace_blend(),
        viewport: Rect::zero_spec(),
        scissor: Rect::zero_spec(),
        shader_program: None,
        textures: [Texture::empty_spec(), Texture::empty_spec()],
    }
}

impl RDP {
    /// A rasterizer stage with zeroed registers and tiles, empty caches and
    /// an empty output.
    pub fn new() -> (r: Self)
        ensures
            r.wf(),
            r.output.commands@ == Seq::<GfxCommand>::empty(),
            r.buf_vbo_num_tris == 0,
            r.other_mode_l == 0,
            r.other_mode_h == 0,
            r.cc_id == 0,
            r.color_combiner_manager.view() == Map::<u32, ColorCombiner>::empty(),
            r.texture_manager@ == Seq::<Texture>::empty(),
            r.texture_manager.capacity == TEXTURE_CACHE_MAX_SIZE,
            r.loaded_shaders@ == Seq::<u32>::empty(),
            r.errors@ == Seq::<RdpError>::empty(),
            !r.viewport_or_scissor_changed,
            r.textures_changed@ == seq![false, false],
            r.rendering_state == initial_rendering_state(),
            r.viewport == Rect::zero_spec(),
            r.scissor == Rect::zero_spec(),
            r.tmem_map@ == Map::<u16, TMEMMapEntry>::empty(),
            r.texture_state == (TextureState { tile: 0, on: false }),
            r.next_texture_handle == 0,
            r.output_dimensions == (OutputDimensions { width: SCREEN_WIDTH, height: SCREEN_HEIGHT }),
    {
        let mut tile_descriptors: Vec<TileDescriptor> = Vec::new();
        let mut i: usize = 0;
        while i < NUM_TILE_DESCRIPTORS
            invariant
                i <= NUM_TILE_DESCRIPTORS,
                tile_descriptors@.len() == i,
            decreases NUM_TILE_DESCRIPTORS - i,
        {
            tile_descriptors.push(TileDescriptor::empty());
            i += 1;
        }
        let blend = BlendComponent { src_factor: BlendFactor::One, dst_factor: BlendFactor::Zero };
        let r = RDP {
            output_dimensions: OutputDimensions { width: SCREEN_WIDTH, height: SCREEN_HEIGHT },
            rendering_state: RenderingState {
                depth_compare: CompareFunction::Always,
                depth_test: false,
                depth_write: false,
                polygon_offset: false,
                blend_state: BlendState { color: blend, alpha: blend },
                viewport: Rect::zero(),
                scissor: Rect::zero(),
                shader_program: None,
                textures: [Texture::empty(), Texture::empty()],
            },
            texture_manager: TextureManager::new(TEXTURE_CACHE_MAX_SIZE),
            texture_state: TextureState { tile: 0, on: false },
            texture_image_state: TextureImageState { fmt: 0, siz: 0, width: 0, address: 0 },
            tile_descriptors,
            tmem_map: HashMap::new(),
            textures_changed: [false, false],
            color_combiner_manager: ColorCombinerManager::new(),
            viewport: Rect::zero(),
            scissor: Rect::zero(),
            viewport_or_scissor_changed: false,
            combine: CombineParams::zero(),
            cc_id: 0,
            other_mode_l: 0,
            other_mode_h: 0,
            buf_vbo: Vec::new(),
            buf_vbo_num_tris: 0,
            loaded_shaders: Vec::new(),
            next_texture_handle: 0,
            output: RcpOutput::new(),
            errors: Vec::new(),
        };
        assert(r.textures_changed@ =~= seq![false, false]);
        assert(r.rendering_state.textures@ =~= initial_rendering_state().textures@);
        r
    }

    /// Starts a new frame: the output, the pending batch and the recorded
    /// faults are emptied. Registers, tiles, caches and the backend state
    /// are kept, as the backend keeps them between frames.
    pub fn reset(&mut self)
        requires
            old(self).wf(),
        ensures
            final(self).wf(),
            final(self).output.commands@ == Seq::<GfxCommand>::empty(),
            final(self).output.vertex_batches@ == Seq::<Vec<StagingVertex>>::empty(),
            final(self).output.pixel_data@ == Seq::<Vec<u8>>::empty(),
            final(self).buf_vbo_num_tris == 0,
            final(self).errors@ == Seq::<RdpError>::empty(),
            frame_started(old(self), final(self)),
            (RDP {
                output: final(self).output,
                buf_vbo: final(self).buf_vbo,
                buf_vbo_num_tris: final(self).buf_vbo_num_tris,
                errors: final(self).errors,
                ..*old(self)
            }) == *final(self),
    {
        self.output = RcpOutput::new();
        self.buf_vbo = Vec::new();
        self.buf_vbo_num_tris = 0;
        self.errors = Vec::new();
    }

    /// Sets the size of the output surface that viewport and scissor are
    /// scaled to.
    pub fn set_output_dimensions(&mut self, width: u32, height: u32)
        ensures
            *final(self) == (RDP { output_dimensions: OutputDimensions { width, height }, ..*old(self) }),
    {
        self.output_dimensions = OutputDimensions { width, height };
    }

    /// Sets the viewport from its scale and translation, scaled to the output.
    pub fn calculate_and_set_viewport(&mut self, viewport: Viewport)
        ensures
            final(self).viewport == viewport_rect(viewport, old(self).output_dimensions),
            final(self).viewport_or_scissor_changed,
            (RDP {
                viewport: final(self).viewport,
                viewport_or_scissor_changed: final(self).viewport_or_scissor_changed,
                ..*old(self)
            }) == *final(self),
    {
        let w = self.output_dimensions.width as i64;
        let h = self.output_dimensions.height as i64;
        let s0 = viewport.vscale[0] as i64;
        let s1 = viewport.vscale[1] as i64;
        let t0 = viewport.vtrans[0] as i64;
        let t1 = viewport.vtrans[1] as i64;
        assert(-65536 <= t0 - s0 <= 65536 && 0 <= w <= 0xffff_ffff);
        assert((t0 - s0) * w <= 65536 * 0xffff_ffff && (t0 - s0) * w >= -65536 * 0xffff_ffff) by (nonlinear_arith)
            requires -65536 <= t0 - s0 <= 65536, 0 <= w <= 0xffff_ffff;
        assert((t1 - s1) * h <= 65536 * 0xffff_ffff && (t1 - s1) * h >= -65536 * 0xffff_ffff) by (nonlinear_arith)
            requires -65536 <= t1 - s1 <= 65536, 0 <= h <= 0xffff_ffff;
        assert(s0 * w <= 65536 * 0xffff_ffff && s0 * w >= -65536 * 0xffff_ffff) by (nonlinear_arith)
            requires -65536 <= s0 <= 65536, 0 <= w <= 0xffff_ffff;
        assert(s1 * h <= 65536 * 0xffff_ffff && s1 * h >= -65536 * 0xffff_ffff) by (nonlinear_arith)
            requires -65536 <= s1 <= 65536, 0 <= h <= 0xffff_ffff;
        self.viewport = Rect {
            x: sat_div_exec((t0 - s0) * w, 1280),
            y: sat_div_exec((t1 - s1) * h, 960),
            width: sat_div_exec(s0 * w, 640),
            height: sat_div_exec(s1 * h, 480),
        };
        self.viewport_or_scissor_changed = true;
    }

    /// Sets the scissor from corners in 10.2 fixed point, scaled to the output.
    pub fn set_scissor(&mut self, ulx: u16, uly: u16, lrx: u16, lry: u16)
        ensures
            final(self).scissor == scissor_rect(ulx, uly, lrx, lry, old(self).output_dimensions),
            final(self).viewport_or_scissor_changed,
            (RDP {
                scissor: final(self).scissor,
                viewport_or_scissor_changed: final(self).viewport_or_scissor_changed,
                ..*old(self)
            }) == *final(self),
    {
        let w = self.output_dimensions.width as i64;
        let h = self.output_dimensions.height as i64;
        let (x0, y0, x1, y1) = (ulx as i64, uly as i64, lrx as i64, lry as i64);
        assert(x0 * w <= 65536 * 0xffff_ffff && (x1 - x0) * w <= 65536 * 0xffff_ffff && (x1 - x0) * w >= -65536 * 0xffff_ffff) by (nonlinear_arith)
            requires 0 <= x0 <= 65535, 0 <= x1 <= 65535, 0 <= w <= 0xffff_ffff;
        assert(y0 * h <= 65536 * 0xffff_ffff && (y1 - y0) * h <= 65536 * 0xffff_ffff && (y1 - y0) * h >= -65536 * 0xffff_ffff) by (nonlinear_arith)
            requires 0 <= y0 <= 65535, 0 <= y1 <= 65535, 0 <= h <= 0xffff_ffff;
        assert(0 <= x0 * w && 0 <= y0 * h) by (nonlinear_arith)
            requires 0 <= x0, 0 <= w, 0 <= y0, 0 <= h;
        self.scissor = Rect {
            x: sat_div_exec(x0 * w, 1280),
            y: sat_div_exec(y0 * h, 960),
            width: sat_div_exec((x1 - x0) * w, 1280),
            height: sat_div_exec((y1 - y0) * h, 960),
        };
        self.viewport_or_scissor_changed = true;
    }

    /// Makes the shader of the current combiner (created on first use) the
    /// bound one, flushing first when it changes.
    pub fn select_shader(&mut self) -> (r: ColorCombiner)
        requires
            old(self).wf(),
        ensures
            final(self).wf(),
            final(self).rendering_state.shader_program == Some(r.shader_program),
            final(self).color_combiner_manager.view().contains_key(old(self).cc_id),
            final(self).color_combiner_manager.view()[old(self).cc_id] == r,
            old(self).color_combiner_manager.view().contains_key(old(self).cc_id) ==> r
                == old(self).color_combiner_manager.view()[old(self).cc_id],
            (RDP {
                output: final(self).output,
                loaded_shaders: final(self).loaded_shaders,
                rendering_state: RenderingState {
                    shader_program: final(self).rendering_state.shader_program,
                    ..old(self).rendering_state
                },
                color_combiner_manager: final(self).color_combiner_manager,
                buf_vbo: final(self).buf_vbo,
                buf_vbo_num_tris: final(self).buf_vbo_num_tris,
                ..*old(self)
            }) == *final(self),
            shader_selected(old(self), r, final(self)),
    {
        let combiner = self.lookup_or_create_color_combiner(self.cc_id);
        let ghost m = *self;
        let program = combiner.shader_program;
        let bound = match self.rendering_state.shader_program {
            Some(p) => p == program,
            None => false,
        };
        if !bound {
            let mut changes: Vec<GfxCommand> = Vec::new();
            changes.push(GfxCommand::UseShader(program));
            assert(changes@ =~= seq![GfxCommand::UseShader(program)]);
            self.apply_changes(&changes);
            self.rendering_state.shader_program = Some(program);
        }
        assert(combiner_selected(old(self), old(self).cc_id, combiner, &m));
        combiner
    }

    /// Draws one triangle: brings textures, shader and render state up to
    /// date (each change flushing the batch first), then batches the
    /// triangle.
    pub fn draw_triangle(
        &mut self,
        mem: &[u8],
        geometry_mode: u32,
        v0: StagingVertex,
        v1: StagingVertex,
        v2: StagingVertex,
    )
        requires
            old(self).wf(),
        ensures
            final(self).wf(),
            final(self).buf_vbo_num_tris >= 1,
            final(self).buf_vbo@.subrange(final(self).buf_vbo@.len() - 3, final(self).buf_vbo@.len() as int)
                == seq![v0, v1, v2],
            final(self).rendering_state.depth_test == (geometry_mode & G_ZBUFFER != 0),
            final(self).rendering_state.depth_write == depth_write_of(old(self).other_mode_l),
            final(self).rendering_state.polygon_offset == polygon_offset_of(old(self).other_mode_l),
            final(self).rendering_state.blend_state == blend_state_of(old(self).other_mode_l),
            final(self).color_combiner_manager.view().contains_key(old(self).cc_id),
            final(self).rendering_state.shader_program == Some(
                final(self).color_combiner_manager.view()[old(self).cc_id].shader_program,
            ),
            final(self).other_mode_l == old(self).other_mode_l,
            final(self).other_mode_h == old(self).other_mode_h,
            final(self).tile_descriptors == old(self).tile_descriptors,
            final(self).texture_state == old(self).texture_state,
            final(self).tmem_map == old(self).tmem_map,
            final(self).combine == old(self).combine,
            final(self).cc_id == old(self).cc_id,
            final(self).viewport == old(self).viewport,
            final(self).scissor == old(self).scissor,
            final(self).output_dimensions == old(self).output_dimensions,
            final(self).texture_image_state == old(self).texture_image_state,
            !final(self).viewport_or_scissor_changed,
            !final(self).textures_changed@[0],
            triangle_drawn(old(self), mem@, geometry_mode, v0, v1, v2, final(self)),
    {
        self.flush_textures(mem);
        let ghost m1 = *self;
        let c = self.select_shader();
        let ghost m2 = *self;
        self.update_render_state(geometry_mode);
        let ghost m3 = *self;
        self.add_triangle(v0, v1, v2);
        assert(crate::tmem::textures_flushed(old(self), mem@, &m1));
        assert(shader_selected(&m1, c, &m2));
        assert(render_state_updated(&m2, geometry_mode, &m3));
        proof {
            let n = self.buf_vbo@.len();
            assert(self.buf_vbo@.subrange(n - 3, n as int) =~= seq![v0, v1, v2]);
        }
    }
}

/// `b` is `a` after looking up, or else creating, the combiner `r` for
/// `cc_id`: a hit changes nothing; a miss flushes, loads the shader when the
/// backend lacks it, caches the new combiner and makes it current.
pub open spec fn combiner_selected(a: &RDP, cc_id: u32, r: ColorCombiner, b: &RDP) -> bool {
    if a.color_combiner_manager.view().contains_key(cc_id) {
        r == a.color_combiner_manager.view()[cc_id] && *b == *a
    } else {
        let known = a.loaded_shaders@.contains(r.shader_id);
        &&& r.cc_id == cc_id
        &&& r.shader_id == shader_id_for(cc_id, a.combine)
        &&& r.shader_program == r.shader_id
        &&& r.color_inputs@ == crate::combiner::pass_inputs(false, a.combine.c0@)
        &&& r.alpha_inputs@ == crate::combiner::pass_inputs(true, a.combine.a0@)
        &&& b.output.commands@ == a.output.commands@ + pending_draw(a) + shader_load_commands(
            a.loaded_shaders@,
            a.rendering_state.shader_program,
            r.shader_id,
        )
        &&& b.output.vertex_batches@ == flushed_batches(a)
        &&& b.output.pixel_data == a.output.pixel_data
        &&& b.buf_vbo_num_tris == 0
        &&& b.color_combiner_manager.view() == a.color_combiner_manager.view().insert(cc_id, r)
        &&& b.color_combiner_manager.current_combiner == Some(cc_id)
        &&& b.loaded_shaders@ == if known {
            a.loaded_shaders@
        } else {
            a.loaded_shaders@.push(r.shader_id)
        }
        &&& b.rendering_state == if known {
            a.rendering_state
        } else {
            RenderingState { shader_program: Some(r.shader_id), ..a.rendering_state }
        }
        &&& (RDP {
            output: b.output,
            loaded_shaders: b.loaded_shaders,
            rendering_state: b.rendering_state,
            color_combiner_manager: b.color_combiner_manager,
            buf_vbo: b.buf_vbo,
            buf_vbo_num_tris: b.buf_vbo_num_tris,
            ..*a
        }) == *b
    }
}

/// `b` is `a` after selecting the current combiner `r` and binding its
/// shader: when another program is bound, the batch is flushed and the
/// program is bound.
pub open spec fn shader_selected(a: &RDP, r: ColorCombiner, b: &RDP) -> bool {
    exists|m: RDP| #![trigger combiner_selected(a, a.cc_id, r, &m)]
        combiner_selected(a, a.cc_id, r, &m) && if m.rendering_state.shader_program == Some(
            r.shader_program,
        ) {
            *b == m
        } else {
            &&& emitted(&m, seq![GfxCommand::UseShader(r.shader_program)], b)
            &&& b.rendering_state == (RenderingState {
                shader_program: Some(r.shader_program),
                ..m.rendering_state
            })
            &&& (RDP {
                rendering_state: b.rendering_state,
                output: b.output,
                buf_vbo: b.buf_vbo,
                buf_vbo_num_tris: b.buf_vbo_num_tris,
                ..m
            }) == *b
        }
}

/// `b` is `a` after `update_render_state(geometry_mode)`.
pub open spec fn render_state_updated(a: &RDP, geometry_mode: u32, b: &RDP) -> bool {
    &&& emitted(a, render_state_changes(a, geometry_mode), b)
    &&& b.rendering_state == required_rendering_state(a, geometry_mode)
    &&& !b.viewport_or_scissor_changed
    &&& (RDP {
        rendering_state: b.rendering_state,
        viewport_or_scissor_changed: b.viewport_or_scissor_changed,
        buf_vbo: b.buf_vbo,
        buf_vbo_num_tris: b.buf_vbo_num_tris,
        output: b.output,
        ..*a
    }) == *b
}

/// `b` is `a` after `add_triangle(v0, v1, v2)`: the triangle is batched,
/// after one flush when the batch is full.
pub open spec fn triangle_added(a: &RDP, v0: StagingVertex, v1: StagingVertex, v2: StagingVertex, b: &RDP) -> bool {
    &&& (draw_counts(b.output.commands@), b.buf_vbo_num_tris as nat) == batch_step(
        draw_counts(a.output.commands@),
        a.buf_vbo_num_tris as nat,
    )
    &&& a.buf_vbo_num_tris < MAX_VBO_SIZE ==> b.output == a.output && b.buf_vbo@ == a.buf_vbo@
        + seq![v0, v1, v2]
    &&& a.buf_vbo_num_tris >= MAX_VBO_SIZE ==> b.buf_vbo@ == seq![v0, v1, v2] && RDP::flushed_output(a, b)
    &&& RDP::same_but_batch(a, b)
}

/// `b` is `a` after drawing one triangle: the textures are brought up to
/// date, then the shader of the current combiner, then the render state,
/// each step flushing the batch before its first change; then the triangle
/// is batched.
pub open spec fn triangle_drawn(
    a: &RDP,
    mem: Seq<u8>,
    geometry_mode: u32,
    v0: StagingVertex,
    v1: StagingVertex,
    v2: StagingVertex,
    b: &RDP,
) -> bool {
    exists|m1: RDP, m2: RDP, m3: RDP, c: ColorCombiner|
        #![trigger crate::tmem::textures_flushed(a, mem, &m1), shader_selected(&m1, c, &m2), render_state_updated(&m2, geometry_mode, &m3)]
        crate::tmem::textures_flushed(a, mem, &m1) && shader_selected(&m1, c, &m2)
            && render_state_updated(&m2, geometry_mode, &m3) && triangle_added(&m3, v0, v1, v2, b)
}

/// Combine ids are the cache key, not the canonical form: combiners created
/// for two distinct ids occupy two entries, each under its own id, even when
/// their operands canonicalize to the same shader and slot mapping.
pub proof fn lemma_distinct_ids_distinct_entries(
    m: Map<u32, ColorCombiner>,
    a: u32,
    ca: ColorCombiner,
    b: u32,
    cb: ColorCombiner,
)
    requires
        a != b,
        ca.cc_id == a,
        cb.cc_id == b,
        !m.contains_key(a),
        !m.contains_key(b),
    ensures
        ({
            let m2 = m.insert(a, ca).insert(b, cb);
            &&& m2.contains_key(a) && m2[a] == ca
            &&& m2.contains_key(b) && m2[b] == cb
            &&& m2[a] != m2[b]
            &&& m2.dom() == m.dom().insert(a).insert(b)
        }),
{
    let m2 = m.insert(a, ca).insert(b, cb);
    assert(m2.dom() =~= m.dom().insert(a).insert(b));
}

/// The batch model after `n` more triangles with no state change between them.
pub open spec fn batch_steps(draws: Seq<nat>, pending: nat, n: nat) -> (Seq<nat>, nat)
    decreases n,
{
    if n == 0 {
        (draws, pending)
    } else {
        let prev = batch_steps(draws, pending, (n - 1) as nat);
        batch_step(prev.0, prev.1)
    }
}

proof fn lemma_total_push(s: Seq<nat>, x: nat)
    ensures
        total(s.push(x)) == total(s) + x,
{
    assert(s.push(x).drop_last() =~= s);
}

/// Batching loses no triangle: after any number of triangles, the triangles
/// drawn plus those still pending are those drawn and pending before, plus
/// the new ones.
pub proof fn lemma_batch_conserves_triangles(draws: Seq<nat>, pending: nat, n: nat)
    ensures
        total(batch_steps(draws, pending, n).0) + batch_steps(draws, pending, n).1 == total(draws)
            + pending + n,
    decreases n,
{
    if n > 0 {
        lemma_batch_conserves_triangles(draws, pending, (n - 1) as nat);
        let prev = batch_steps(draws, pending, (n - 1) as nat);
        lemma_total_push(prev.0, prev.1);
    }
}

proof fn lemma_batch_fills(draws: Seq<nat>, pending: nat, a: nat, j: nat)
    requires
        batch_steps(draws, pending, a).1 + j <= MAX_VBO_SIZE,
    ensures
        batch_steps(draws, pending, a + j) == (
            batch_steps(draws, pending, a).0,
            batch_steps(draws, pending, a).1 + j,
        ),
    decreases j,
{
    if j > 0 {
        lemma_batch_fills(draws, pending, a, (j - 1) as nat);
        assert(batch_steps(draws, pending, a + j) == {
            let prev = batch_steps(draws, pending, (a + j - 1) as nat);
            batch_step(prev.0, prev.1)
        });
    }
}

/// From an empty batch, more triangles than the capacity (but not more than
/// twice it) give exactly one draw, of a full batch, at the capacity
/// boundary; the rest stay pending.
pub proof fn lemma_batch_single_forced_flush(draws: Seq<nat>, n: nat)
    requires
        MAX_VBO_SIZE < n <= 2 * MAX_VBO_SIZE,
    ensures
        batch_steps(draws, 0, n) == (draws.push(MAX_VBO_SIZE as nat), (n - MAX_VBO_SIZE) as nat),
{
    lemma_batch_fills(draws, 0, 0, MAX_VBO_SIZE as nat);
    assert(batch_steps(draws, 0, (MAX_VBO_SIZE + 1) as nat) == batch_step(
        draws,
        MAX_VBO_SIZE as nat,
    ));
    lemma_batch_fills(draws, 0, (MAX_VBO_SIZE + 1) as nat, (n - MAX_VBO_SIZE - 1) as nat);
}

} // verus!
