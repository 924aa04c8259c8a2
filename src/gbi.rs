//! The opcode dispatcher: a table from opcode byte to command, and the
//! decoding and execution of one command.
use vstd::prelude::*;
use crate::combiner::CombineParams;
use crate::rdp::{sat_div, scissor_rect, OutputDimensions, Rect, RdpError, TMEMMapEntry, TextureImageState, TextureState, TileDescriptor, Viewport, RDP};
use crate::rsp::{read_i16, vertices_loaded, RspError, MAX_VERTICES, RSP};

verus! {

/// Size in bytes of one command: two big-endian 32-bit words.
pub const COMMAND_SIZE: usize = 8;

/// What the interpreter does after a command.
#[derive(Clone, Copy, Debug, PartialEq, Eq, Structural)]
pub enum GBIResult {
    /// Go on with the next command.
    Continue,
    /// Interpret the display list at this address, then go on with the next command.
    Recurse(usize),
    /// End the current display list.
    Return,
    /// The opcode has no handler; the command is skipped.
    Unknown(u8),
}

/// The commands a handler can be registered for.
#[derive(Clone, Copy, Debug, PartialEq, Eq, Structural)]
pub enum GfxOp {
    NoOp,
    EndDisplayList,
    DisplayList,
    Vertex,
    Triangle1,
    GeometryMode,
    SetOtherModeL,
    SetOtherModeH,
    SetCombine,
    SetViewport,
    SetScissor,
    SetTextureImage,
    SetTile,
    SetTileSize,
    LoadBlock,
    LoadTlut,
    Texture,
}

/// First word of the command at `pc`.
pub open spec fn w0_at(mem: Seq<u8>, pc: int) -> u32 {
    ((mem[pc] as u32) << 24u32) | ((mem[pc + 1] as u32) << 16u32) | ((mem[pc + 2] as u32) << 8u32)
        | (mem[pc + 3] as u32)
}

/// Second word of the command at `pc`.
pub open spec fn w1_at(mem: Seq<u8>, pc: int) -> u32 {
    w0_at(mem, pc + 4)
}

/// What the interpreter does after the command at `pc`, as the table decides.
pub open spec fn step_result(table: Seq<Option<GfxOp>>, mem: Seq<u8>, pc: int) -> GBIResult {
    let opcode = mem[pc];
    match table[opcode as int] {
        None => GBIResult::Unknown(opcode),
        Some(GfxOp::EndDisplayList) => GBIResult::Return,
        Some(GfxOp::DisplayList) => GBIResult::Recurse(w1_at(mem, pc) as usize),
        Some(_) => GBIResult::Continue,
    }
}

/// Big-endian 32-bit word at `at`.
pub fn read_u32(mem: &[u8], at: usize) -> (r: u32)
    requires
        at + 4 <= mem@.len(),
    ensures
        r == w0_at(mem@, at as int),
{
    ((mem[at] as u32) << 24u32) | ((mem[at + 1] as u32) << 16u32) | ((mem[at + 2] as u32) << 8u32)
        | (mem[at + 3] as u32)
}

/// The bits that a set-othermode command with first word `w0` replaces:
/// `len` bits ending `shift` bits below the top, where the command holds
/// `shift` in bits 8 to 15 and `len - 1` in bits 0 to 7. Nothing when the
/// field does not fit in 32 bits.
pub open spec fn othermode_mask(w0: u32) -> u32 {
    let sft = (w0 >> 8u32) & 0xff;
    let len = (w0 & 0xff) + 1;
    if sft + len > 32 {
        0
    } else {
        ((((1u64 << (len as u64)) - 1) as u64) << ((32 - sft - len) as u64)) as u32
    }
}

/// The register `mode` after a set-othermode command with words `w0`, `w1`.
pub open spec fn othermode_update(mode: u32, w0: u32, w1: u32) -> u32 {
    (mode & !othermode_mask(w0)) | (w1 & othermode_mask(w0))
}

/// The field of `w` at `shift` under `mask`.
fn bits(w: u32, shift: u32, mask: u32) -> (r: u32)
    requires
        shift < 32,
    ensures
        r == (w >> shift) & mask,
        r <= mask,
        shift == 0 ==> r == w & mask,
{
    assert((w >> shift) & mask <= mask) by (bit_vector);
    assert(shift == 0 ==> (w >> shift) & mask == w & mask) by (bit_vector);
    (w >> shift) & mask
}

fn othermode_mask_exec(w0: u32) -> (r: u32)
    ensures
        r == othermode_mask(w0),
{
    let sft = bits(w0, 8, 0xff);
    let len = bits(w0, 0, 0xff) + 1;
    assert(w0 >> 0u32 == w0) by (bit_vector);
    if sft + len > 32 {
        0
    } else {
        assert(len <= 32);
        assert(1u64 << (len as u64) >= 1) by (bit_vector)
            requires
                len <= 32,
        ;
        ((((1u64 << (len as u64)) - 1) as u64) << ((32 - sft - len) as u64)) as u32
    }
}

/// What dispatching the command at `pc` through `table` does to the two
/// stages, `a`/`ra` before and `b`/`rb` after.
pub open spec fn command_dispatched(table: Seq<Option<GfxOp>>, mem: Seq<u8>, pc: int, a: &RDP, ra: &RSP, b: &RDP, rb: &RSP) -> bool {
    match table[mem[pc] as int] {
        None => *b == (RDP { errors: b.errors, ..*a })
            && b.errors@ == a.errors@.push(RdpError::UnknownOpcode(mem[pc]))
            && *rb == *ra,
        Some(GfxOp::NoOp) | Some(GfxOp::EndDisplayList) | Some(GfxOp::DisplayList) =>
            *b == *a && *rb == *ra,
        Some(op) => command_effect(
            op,
            mem,
            a,
            ra,
            w0_at(mem, pc),
            w1_at(mem, pc),
            b,
            rb,
        ),
    }
}

/// The opcode table, one entry per opcode byte.
pub struct GBI {
    pub gbi_opcode_table: Vec<Option<GfxOp>>,
}

impl GBI {
    pub open spec fn wf(&self) -> bool {
        self.gbi_opcode_table@.len() == 256
    }

    /// A table with no handler registered.
    pub fn new() -> (r: Self)
        ensures
            r.wf(),
            forall|i: int| 0 <= i < 256 ==> r.gbi_opcode_table@[i] is None,
    {
        let mut table: Vec<Option<GfxOp>> = Vec::new();
        let mut i: usize = 0;
        while i < 256
            invariant
                i <= 256,
                table@.len() == i,
                forall|j: int| 0 <= j < i ==> table@[j] is None,
            decreases 256 - i,
        {
            table.push(None);
            i += 1;
        }
        GBI { gbi_opcode_table: table }
    }

    /// Associates `opcode` with `op`, replacing any earlier handler.
    pub fn register(&mut self, opcode: u8, op: GfxOp)
        requires
            old(self).wf(),
        ensures
            final(self).wf(),
            final(self).gbi_opcode_table@ == old(self).gbi_opcode_table@.update(opcode as int, Some(op)),
    {
        self.gbi_opcode_table.set(opcode as usize, Some(op));
    }

    /// Registers the default command table.
    pub fn setup(&mut self)
        requires
            old(self).wf(),
        ensures
            final(self).wf(),
            final(self).gbi_opcode_table@[0x00] == Some(GfxOp::NoOp),
            final(self).gbi_opcode_table@[0x01] == Some(GfxOp::Vertex),
            final(self).gbi_opcode_table@[0x05] == Some(GfxOp::Triangle1),
            final(self).gbi_opcode_table@[0xd7] == Some(GfxOp::Texture),
            final(self).gbi_opcode_table@[0xd9] == Some(GfxOp::GeometryMode),
            final(self).gbi_opcode_table@[0xdc] == Some(GfxOp::SetViewport),
            final(self).gbi_opcode_table@[0xde] == Some(GfxOp::DisplayList),
            final(self).gbi_opcode_table@[0xdf] == Some(GfxOp::EndDisplayList),
            final(self).gbi_opcode_table@[0xe2] == Some(GfxOp::SetOtherModeL),
            final(self).gbi_opcode_table@[0xe3] == Some(GfxOp::SetOtherModeH),
            final(self).gbi_opcode_table@[0xed] == Some(GfxOp::SetScissor),
            final(self).gbi_opcode_table@[0xf0] == Some(GfxOp::LoadTlut),
            final(self).gbi_opcode_table@[0xf2] == Some(GfxOp::SetTileSize),
            final(self).gbi_opcode_table@[0xf3] == Some(GfxOp::LoadBlock),
            final(self).gbi_opcode_table@[0xf5] == Some(GfxOp::SetTile),
            final(self).gbi_opcode_table@[0xfc] == Some(GfxOp::SetCombine),
            final(self).gbi_opcode_table@[0xfd] == Some(GfxOp::SetTextureImage),
            forall|i: int|
                0 <= i < 256 && !(i == 0x00 || i == 0x01 || i == 0x05 || i == 0xd7 || i == 0xd9 || i
                    == 0xdc || i == 0xde || i == 0xdf || i == 0xe2 || i == 0xe3 || i == 0xed || i
                    == 0xf0 || i == 0xf2 || i == 0xf3 || i == 0xf5 || i == 0xfc || i == 0xfd)
                    ==> final(self).gbi_opcode_table@[i] == old(self).gbi_opcode_table@[i],
    {
        self.register(0x00, GfxOp::NoOp);
        self.register(0x01, GfxOp::Vertex);
        self.register(0x05, GfxOp::Triangle1);
        self.register(0xd7, GfxOp::Texture);
        self.register(0xd9, GfxOp::GeometryMode);
        self.register(0xdc, GfxOp::SetViewport);
        self.register(0xde, GfxOp::DisplayList);
        self.register(0xdf, GfxOp::EndDisplayList);
        self.register(0xe2, GfxOp::SetOtherModeL);
        self.register(0xe3, GfxOp::SetOtherModeH);
        self.register(0xed, GfxOp::SetScissor);
        self.register(0xf0, GfxOp::LoadTlut);
        self.register(0xf2, GfxOp::SetTileSize);
        self.register(0xf3, GfxOp::LoadBlock);
        self.register(0xf5, GfxOp::SetTile);
        self.register(0xfc, GfxOp::SetCombine);
        self.register(0xfd, GfxOp::SetTextureImage);
    }

    /// Interprets the command at `pc`: its opcode (the top byte of the first
    /// word) selects the handler, whose effects land in `rdp` and `rsp`.
    /// Faults are recorded in `rdp.errors`; none stops the interpretation.
    pub fn handle_command(&self, rdp: &mut RDP, rsp: &mut RSP, mem: &[u8], pc: usize) -> (r: GBIResult)
        requires
            self.wf(),
            old(rdp).wf(),
            old(rsp).wf(),
            pc + COMMAND_SIZE <= mem@.len(),
        ensures
            final(rdp).wf(),
            final(rsp).wf(),
            r == step_result(self.gbi_opcode_table@, mem@, pc as int),
            command_dispatched(self.gbi_opcode_table@, mem@, pc as int, old(rdp), old(rsp), final(rdp), final(rsp)),
    {
        assert(mem@.len() == mem.len());
        let w0 = read_u32(mem, pc);
        let w1 = read_u32(mem, pc + 4);
        let opcode = mem[pc];
        match self.gbi_opcode_table[opcode as usize] {
            None => {
                rdp.errors.push(RdpError::UnknownOpcode(opcode));
                GBIResult::Unknown(opcode)
            },
            Some(GfxOp::EndDisplayList) => GBIResult::Return,
            Some(GfxOp::DisplayList) => GBIResult::Recurse(w1 as usize),
            Some(GfxOp::NoOp) => GBIResult::Continue,
            Some(op) => {
                execute(op, rdp, rsp, mem, w0, w1);
                GBIResult::Continue
            },
        }
    }
}

/// The tile descriptor index a command names in bits 24 to 26 of `w1`.
pub open spec fn tile_index(w1: u32) -> int {
    ((w1 >> 24u32) & 7) as int
}

/// Big-endian signed 16-bit value at `at`, as an integer.
pub open spec fn s16(mem: Seq<u8>, at: int) -> int {
    crate::rsp::i16_at(mem, at) as int
}

/// The viewport rectangle for the viewport record at `at` in `mem`: four
/// scale values, then four translation values.
pub open spec fn viewport_rect_at(mem: Seq<u8>, at: int, dims: OutputDimensions) -> Rect {
    let w = dims.width as int;
    let h = dims.height as int;
    Rect {
        x: sat_div((s16(mem, at + 8) - s16(mem, at)) * w, 1280),
        y: sat_div((s16(mem, at + 10) - s16(mem, at + 2)) * h, 960),
        width: sat_div(s16(mem, at) * w, 640),
        height: sat_div(s16(mem, at + 2) * h, 480),
    }
}

/// The faults a geometry result adds to the fault list.
pub open spec fn geometry_errors(r: Result<(), RspError>) -> Seq<RdpError> {
    match r {
        Ok(_) => seq![],
        Err(e) => seq![RdpError::Geometry(e)],
    }
}

/// What command `op` with words `w0`, `w1` does to the two stages, `a`/`ra`
/// before and `b`/`rb` after, reading its arguments from `mem`.
pub open spec fn command_effect(op: GfxOp, mem: Seq<u8>, a: &RDP, ra: &RSP, w0: u32, w1: u32, b: &RDP, rb: &RSP) -> bool {
    match op {
        GfxOp::NoOp | GfxOp::EndDisplayList | GfxOp::DisplayList => *b == *a && *rb == *ra,
        GfxOp::Vertex => {
            let count = ((w0 >> 12u32) & 0xff) as u8;
            let end = ((w0 >> 1u32) & 0x7f) as u8;
            if end < count {
                &&& *b == (RDP { errors: b.errors, ..*a })
                &&& b.errors@ == a.errors@.push(RdpError::Geometry(RspError::VertexRangeOutOfTable { dest: end, count }))
                &&& *rb == *ra
            } else {
                exists|r: Result<(), RspError>| #![trigger vertices_loaded(ra, mem, w1 as usize, count, (end - count) as u8, r, rb)]
                    vertices_loaded(ra, mem, w1 as usize, count, (end - count) as u8, r, rb)
                    && *b == (RDP { errors: b.errors, ..*a })
                    && b.errors@ == a.errors@ + geometry_errors(r)
            }
        },
        GfxOp::SetViewport => {
            let at = w1 as usize;
            &&& *rb == *ra
            &&& if at + 16 > mem.len() {
                *b == (RDP { errors: b.errors, ..*a })
                    && b.errors@ == a.errors@.push(RdpError::ArgumentsOutOfBounds { address: at })
            } else {
                *b == (RDP {
                    viewport: viewport_rect_at(mem, at as int, a.output_dimensions),
                    viewport_or_scissor_changed: true,
                    ..*a
                })
            }
        },
        GfxOp::GeometryMode => *b == *a && rb.geometry_mode == (ra.geometry_mode & (w0 & 0x00ff_ffff))
            | w1 && rb.vertex_table == ra.vertex_table,
        GfxOp::SetOtherModeL => *b == (RDP { other_mode_l: othermode_update(a.other_mode_l, w0, w1), ..*a })
            && *rb == *ra,
        GfxOp::SetOtherModeH => *b == (RDP { other_mode_h: othermode_update(a.other_mode_h, w0, w1), ..*a })
            && *rb == *ra,
        GfxOp::SetCombine => *b == (RDP { cc_id: w1, combine: b.combine, ..*a })
            && (b.combine.c0@, b.combine.a0@) == crate::combiner::params_of(w1) && *rb == *ra,
        GfxOp::SetTextureImage => *b == (RDP {
            texture_image_state: TextureImageState {
                fmt: ((w0 >> 21u32) & 7) as u8,
                siz: ((w0 >> 19u32) & 3) as u8,
                width: ((w0 & 0xfff) + 1) as u16,
                address: w1 as usize,
            },
            ..*a
        }) && *rb == *ra,
        GfxOp::SetTile => *b == (RDP { tile_descriptors: b.tile_descriptors, ..*a })
            && b.tile_descriptors@ == a.tile_descriptors@.update(
            tile_index(w1),
            TileDescriptor {
                fmt: ((w0 >> 21u32) & 7) as u8,
                siz: ((w0 >> 19u32) & 3) as u8,
                line: ((w0 >> 9u32) & 0x1ff) as u16,
                tmem: (w0 & 0x1ff) as u16,
                palette: ((w1 >> 20u32) & 0xf) as u8,
                cmt: ((w1 >> 18u32) & 3) as u8,
                cms: ((w1 >> 8u32) & 3) as u8,
                ..a.tile_descriptors@[tile_index(w1)]
            },
        ) && *rb == *ra,
        GfxOp::SetTileSize => *b == (RDP { tile_descriptors: b.tile_descriptors, ..*a })
            && b.tile_descriptors@ == a.tile_descriptors@.update(
            tile_index(w1),
            TileDescriptor {
                uls: ((w0 >> 12u32) & 0xfff) as u16,
                ult: (w0 & 0xfff) as u16,
                lrs: ((w1 >> 12u32) & 0xfff) as u16,
                lrt: (w1 & 0xfff) as u16,
                ..a.tile_descriptors@[tile_index(w1)]
            },
        ) && *rb == *ra,
        GfxOp::LoadBlock => {
            let slot: int = if a.tile_descriptors@[tile_index(w1)].tmem == 0 { 0 } else { 1 };
            &&& *b == (RDP { tmem_map: b.tmem_map, textures_changed: b.textures_changed, ..*a })
            &&& b.tmem_map@ == a.tmem_map@.insert(slot as u16, TMEMMapEntry { address: a.texture_image_state.address })
            &&& b.textures_changed@ == a.textures_changed@.update(slot, true)
            &&& *rb == *ra
        },
        GfxOp::LoadTlut => {
            let slot: int = (w0 & 1) as int;
            &&& *b == (RDP { tmem_map: b.tmem_map, textures_changed: b.textures_changed, ..*a })
            &&& b.tmem_map@ == a.tmem_map@.insert((0xffffu16 - slot as u16) as u16, TMEMMapEntry { address: a.texture_image_state.address })
            &&& b.textures_changed@ == a.textures_changed@.update(slot, true)
            &&& *rb == *ra
        },
        GfxOp::Triangle1 => {
            let i0 = ((w0 >> 16u32) & 0xff) as u8;
            let i1 = ((w0 >> 8u32) & 0xff) as u8;
            let i2 = (w0 & 0xff) as u8;
            if i0 < MAX_VERTICES && i1 < MAX_VERTICES && i2 < MAX_VERTICES {
                &&& crate::rdp::triangle_drawn(
                    a,
                    mem,
                    ra.geometry_mode,
                    ra.vertex_table@[i0 as int],
                    ra.vertex_table@[i1 as int],
                    ra.vertex_table@[i2 as int],
                    b,
                )
                &&& *rb == *ra
            } else {
                let bad = if i0 >= MAX_VERTICES { i0 } else if i1 >= MAX_VERTICES { i1 } else { i2 };
                &&& *b == (RDP { errors: b.errors, ..*a })
                &&& b.errors@ == a.errors@.push(RdpError::Geometry(RspError::VertexIndexOutOfRange(bad)))
                &&& *rb == *ra
            }
        },
        GfxOp::SetScissor => *b == (RDP {
            scissor: scissor_rect(
                ((w0 >> 12u32) & 0xfff) as u16,
                (w0 & 0xfff) as u16,
                ((w1 >> 12u32) & 0xfff) as u16,
                (w1 & 0xfff) as u16,
                a.output_dimensions,
            ),
            viewport_or_scissor_changed: true,
            ..*a
        }) && *rb == *ra,
        GfxOp::Texture => *b == (RDP {
            texture_state: TextureState { tile: ((w0 >> 8u32) & 7) as u8, on: (w0 >> 1u32) & 0x7f != 0 },
            ..*a
        }) && *rb == *ra,
    }
}

/// Runs the state-changing command `op` with words `w0`, `w1`.
fn execute(op: GfxOp, rdp: &mut RDP, rsp: &mut RSP, mem: &[u8], w0: u32, w1: u32)
    requires
        old(rdp).wf(),
        old(rsp).wf(),
    ensures
        final(rdp).wf(),
        final(rsp).wf(),
        command_effect(op, mem@, old(rdp), old(rsp), w0, w1, final(rdp), final(rsp)),
{
    match op {
        GfxOp::Vertex => {
            let count = bits(w0, 12, 0xff) as u8;
            let end = bits(w0, 1, 0x7f) as u8;
            if end < count {
                rdp.errors.push(RdpError::Geometry(crate::rsp::RspError::VertexRangeOutOfTable { dest: end, count }));
            } else {
                let r = rsp.load_vertices(mem, w1 as usize, count, end - count);
                match r {
                    Ok(()) => {},
                    Err(e) => rdp.errors.push(RdpError::Geometry(e)),
                }
                assert(rdp.errors@ =~= old(rdp).errors@ + geometry_errors(r));
            }
        },
        GfxOp::Triangle1 => {
            let (i0, i1, i2) = (bits(w0, 16, 0xff) as u8, bits(w0, 8, 0xff) as u8, bits(w0, 0, 0xff) as u8);
            match (rsp.vertex(i0), rsp.vertex(i1), rsp.vertex(i2)) {
                (Ok(v0), Ok(v1), Ok(v2)) => rdp.draw_triangle(mem, rsp.geometry_mode, v0, v1, v2),
                (Err(e), _, _) | (_, Err(e), _) | (_, _, Err(e)) => rdp.errors.push(RdpError::Geometry(e)),
            }
        },
        GfxOp::GeometryMode => rsp.update_geometry_mode(w0 & 0x00ff_ffff, w1),
        GfxOp::SetOtherModeL => {
            let mask = othermode_mask_exec(w0);
            rdp.other_mode_l = (rdp.other_mode_l & !mask) | (w1 & mask);
        },
        GfxOp::SetOtherModeH => {
            let mask = othermode_mask_exec(w0);
            rdp.other_mode_h = (rdp.other_mode_h & !mask) | (w1 & mask);
        },
        GfxOp::SetCombine => {
            rdp.combine = CombineParams::from_u32(w1);
            rdp.cc_id = w1;
        },
        GfxOp::SetViewport => {
            let at = w1 as usize;
            if at > mem.len() || mem.len() - at < 16 {
                rdp.errors.push(RdpError::ArgumentsOutOfBounds { address: at });
            } else {
                let vscale = [read_i16(mem, at), read_i16(mem, at + 2), read_i16(mem, at + 4), read_i16(mem, at + 6)];
                let vtrans = [read_i16(mem, at + 8), read_i16(mem, at + 10), read_i16(mem, at + 12), read_i16(mem, at + 14)];
                assert(vscale@[0] == crate::rsp::i16_at(mem@, at as int) && vscale@[1] == crate::rsp::i16_at(mem@, at + 2));
                assert(vtrans@[0] == crate::rsp::i16_at(mem@, at + 8) && vtrans@[1] == crate::rsp::i16_at(mem@, at + 10));
                let vp = Viewport { vscale, vtrans };
                rdp.calculate_and_set_viewport(vp);
            }
        },
        GfxOp::SetScissor => {
            rdp.set_scissor(
                bits(w0, 12, 0xfff) as u16,
                bits(w0, 0, 0xfff) as u16,
                bits(w1, 12, 0xfff) as u16,
                bits(w1, 0, 0xfff) as u16,
            );
        },
        GfxOp::SetTextureImage => {
            rdp.texture_image_state = TextureImageState {
                fmt: bits(w0, 21, 7) as u8,
                siz: bits(w0, 19, 3) as u8,
                width: (bits(w0, 0, 0xfff) + 1) as u16,
                address: w1 as usize,
            };
        },
        GfxOp::SetTile => {
            let t = bits(w1, 24, 7) as usize;
            let mut tile = rdp.tile_descriptors[t];
            tile.fmt = bits(w0, 21, 7) as u8;
            tile.siz = bits(w0, 19, 3) as u8;
            tile.line = bits(w0, 9, 0x1ff) as u16;
            tile.tmem = bits(w0, 0, 0x1ff) as u16;
            tile.palette = bits(w1, 20, 0xf) as u8;
            tile.cmt = bits(w1, 18, 3) as u8;
            tile.cms = bits(w1, 8, 3) as u8;
            rdp.tile_descriptors.set(t, tile);
        },
        GfxOp::SetTileSize => {
            let t = bits(w1, 24, 7) as usize;
            let mut tile = rdp.tile_descriptors[t];
            tile.uls = bits(w0, 12, 0xfff) as u16;
            tile.ult = bits(w0, 0, 0xfff) as u16;
            tile.lrs = bits(w1, 12, 0xfff) as u16;
            tile.lrt = bits(w1, 0, 0xfff) as u16;
            rdp.tile_descriptors.set(t, tile);
        },
        GfxOp::LoadBlock => {
            let t = bits(w1, 24, 7) as usize;
            let slot: usize = if rdp.tile_descriptors[t].tmem == 0 { 0 } else { 1 };
            rdp.tmem_map.insert(slot as u16, TMEMMapEntry::new(rdp.texture_image_state.address));
            rdp.textures_changed[slot] = true;
        },
        GfxOp::LoadTlut => {
            let slot: usize = bits(w0, 0, 1) as usize;
            rdp.tmem_map.insert(0xffffu16 - slot as u16, TMEMMapEntry::new(rdp.texture_image_state.address));
            rdp.textures_changed[slot] = true;
        },
        GfxOp::Texture => {
            rdp.texture_state = TextureState {
                tile: bits(w0, 8, 7) as u8,
                on: bits(w0, 1, 0x7f) != 0,
            };
        },
        _ => {},
    }
}

} // verus!
