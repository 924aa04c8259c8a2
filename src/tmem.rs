//! Texture import and binding: decoding tiles through the texture cache,
//! palettes, placeholders, and the sampler state of the two texture slots.
use vstd::prelude::*;
use crate::output::GfxCommand;
use crate::rdp::{
    flushed_batches, pending_draw, change_if, extent, RdpError, RenderingState, TMEMMapEntry, TileDescriptor, NUM_TILE_DESCRIPTORS,
    RDP,
};
use crate::texture::{
    bytes_for, decode_spec, decode_texels, kind_of, palette_entries, palette_kind, texel_kind,
    translate_tlut, TexelKind, MAX_TEXELS,
};
use crate::texture_cache::{lookup_spec, Texture};

verus! {

/// Filter mode: nearest texel.
pub const G_TF_POINT: u32 = 0;
/// Filter mode: bilinear.
pub const G_TF_BILERP: u32 = 2;
/// Filter mode: average of four texels.
pub const G_TF_AVERAGE: u32 = 3;
/// Bit position of the texture filter field in `other_mode_h`.
pub const G_MDSFT_TEXTFILT: u32 = 12;
/// Bit position of the palette mode field in `other_mode_h`.
pub const G_MDSFT_TEXTLUT: u32 = 14;
/// Bit position of the level-of-detail (mip-mapping) bit in `other_mode_h`.
pub const G_MDSFT_TEXTLOD: u32 = 16;
/// Bit position of the cycle type field in `other_mode_h`.
pub const G_MDSFT_CYCLETYPE: u32 = 20;

/// Texture filter selected by `other_mode_h`.
#[derive(Clone, Copy, Debug, PartialEq, Eq, Structural)]
pub enum TextFilt {
    Point,
    Average,
    Bilerp,
}

/// Pipeline cycle type selected by `other_mode_h`.
#[derive(Clone, Copy, Debug, PartialEq, Eq, Structural)]
pub enum CycleType {
    OneCycle,
    TwoCycle,
    Copy,
    Fill,
}

/// The texture filter field of `mode_h`; the reserved code gives `None`.
pub open spec fn textfilt_of(mode_h: u32) -> Option<TextFilt> {
    let f = (mode_h >> G_MDSFT_TEXTFILT) & 3;
    if f == G_TF_POINT {
        Some(TextFilt::Point)
    } else if f == G_TF_BILERP {
        Some(TextFilt::Bilerp)
    } else if f == G_TF_AVERAGE {
        Some(TextFilt::Average)
    } else {
        None
    }
}

/// Sampling is linear unless the filter field names point sampling.
pub open spec fn linear_filter_of(mode_h: u32) -> bool {
    textfilt_of(mode_h) != Some(TextFilt::Point)
}

/// The cycle type field of `mode_h`.
pub open spec fn cycle_type_of(mode_h: u32) -> CycleType {
    let c = (mode_h >> G_MDSFT_CYCLETYPE) & 3;
    if c == 0 {
        CycleType::OneCycle
    } else if c == 1 {
        CycleType::TwoCycle
    } else if c == 2 {
        CycleType::Copy
    } else {
        CycleType::Fill
    }
}

/// The palette mode field of `mode_h`.
pub open spec fn tlut_mode_of(mode_h: u32) -> u32 {
    (mode_h >> G_MDSFT_TEXTLUT) & 3
}

/// The entry of the memory map under `key`, if any.
pub open spec fn tmem_entry(a: &RDP, key: u16) -> Option<TMEMMapEntry> {
    if a.tmem_map@.contains_key(key) {
        Some(a.tmem_map@[key])
    } else {
        None
    }
}

/// The key of the palette for texture slot `slot`: the complementary end of
/// the key range.
pub open spec fn palette_key(slot: usize) -> u16 {
    (0xffffu16 - slot as u16) as u16
}

/// The placeholder texture bound where a tile cannot be decoded.
pub open spec fn placeholder_texture(slot: usize, handle: u32) -> Texture {
    Texture {
        tmem_index: slot,
        address: 0,
        fmt: 0,
        siz: 0,
        handle,
        width: 1,
        height: 1,
        linear_filter: false,
        cms: 0,
        cmt: 0,
    }
}

/// The texture that a fresh import of `tile` from `address` into `slot` yields.
pub open spec fn imported_texture(slot: usize, address: usize, tile: TileDescriptor, handle: u32) -> Texture {
    Texture {
        tmem_index: slot,
        address,
        fmt: tile.fmt,
        siz: tile.siz,
        handle,
        width: extent(tile.uls, tile.lrs),
        height: extent(tile.ult, tile.lrt),
        linear_filter: false,
        cms: 0,
        cmt: 0,
    }
}

/// `b` is `a` after binding a fresh placeholder texture to `slot`: one upload
/// of a single opaque white texel under the next handle.
pub open spec fn placeholder_bound(a: &RDP, slot: usize, b: &RDP) -> bool {
    let next = a.next_texture_handle;
    &&& b.output.commands@ == a.output.commands@.push(
        GfxCommand::UploadTexture {
            slot: slot as u8,
            handle: next,
            width: 1,
            height: 1,
            pixels: a.output.pixel_data@.len() as usize,
        },
    )
    &&& b.output.pixel_data@.len() == a.output.pixel_data@.len() + 1
    &&& b.output.pixel_data@.drop_last() == a.output.pixel_data@
    &&& b.output.pixel_data@.last()@ == seq![255u8, 255u8, 255u8, 255u8]
    &&& b.rendering_state.textures@ == a.rendering_state.textures@.update(
        slot as int,
        placeholder_texture(slot, next),
    )
    &&& b.texture_manager == a.texture_manager
    &&& b.next_texture_handle == next.wrapping_add(1)
}

/// `b` is `a` after decoding `tile` from `address` through `pal`, uploading
/// it under the next handle, caching it and binding it to `slot`.
pub open spec fn decoded_bound(
    a: &RDP,
    mem: Seq<u8>,
    slot: usize,
    tile: TileDescriptor,
    address: usize,
    kind: TexelKind,
    pal: Seq<u8>,
    b: &RDP,
) -> bool {
    let next = a.next_texture_handle;
    let w = extent(tile.uls, tile.lrs);
    let h = extent(tile.ult, tile.lrt);
    let tex = imported_texture(slot, address, tile, next);
    &&& b.output.commands@ == a.output.commands@.push(
        GfxCommand::UploadTexture {
            slot: slot as u8,
            handle: next,
            width: w,
            height: h,
            pixels: a.output.pixel_data@.len() as usize,
        },
    )
    &&& b.output.pixel_data@.len() == a.output.pixel_data@.len() + 1
    &&& b.output.pixel_data@.drop_last() == a.output.pixel_data@
    &&& b.output.pixel_data@.last()@ == decode_spec(
        kind,
        mem.subrange(address as int, mem.len() as int),
        pal,
        (w * h) as nat,
    )
    &&& b.texture_manager@ == crate::texture_cache::insert_spec(
        a.texture_manager@,
        a.texture_manager.capacity as nat,
        tex,
    )
    &&& b.texture_manager.capacity == a.texture_manager.capacity
    &&& b.rendering_state.textures@ == a.rendering_state.textures@.update(slot as int, tex)
    &&& b.next_texture_handle == next.wrapping_add(1)
}

/// What decoding `tile` from `address` into texture slot `slot` of `a`
/// returns as `r` and leaves as `b`.
pub open spec fn decode_outcome(
    a: &RDP,
    mem: Seq<u8>,
    slot: usize,
    tile: TileDescriptor,
    address: usize,
    r: Result<(), RdpError>,
    b: &RDP,
) -> bool {
    let w = extent(tile.uls, tile.lrs);
    let h = extent(tile.ult, tile.lrt);
    match kind_of(tile.fmt, tile.siz) {
        None => r == Err::<(), RdpError>(RdpError::UnsupportedTextureFormat { fmt: tile.fmt, siz: tile.siz })
            && placeholder_bound(a, slot, b),
        Some(kind) => if w as int * h as int > MAX_TEXELS {
            r == Err::<(), RdpError>(RdpError::TextureTooLarge { width: w, height: h })
                && placeholder_bound(a, slot, b)
        } else if address + bytes_for(kind, w as int * h as int) > mem.len() {
            r == Err::<(), RdpError>(RdpError::TextureOutOfBounds { address: address })
                && placeholder_bound(a, slot, b)
        } else if kind == TexelKind::Ci4 || kind == TexelKind::Ci8 {
            match tmem_entry(a, palette_key(slot)) {
                None => r == Err::<(), RdpError>(RdpError::MissingTmemEntry(palette_key(slot)))
                    && placeholder_bound(a, slot, b),
                Some(pe) => if pe.address + 2 * palette_entries(tile.siz) > mem.len() {
                    r == Err::<(), RdpError>(RdpError::TextureOutOfBounds { address: pe.address })
                        && placeholder_bound(a, slot, b)
                } else {
                    let pal = decode_spec(
                        palette_kind(tlut_mode_of(a.other_mode_h)),
                        mem.subrange(pe.address as int, mem.len() as int),
                        seq![],
                        palette_entries(tile.siz),
                    );
                    r is Ok && decoded_bound(a, mem, slot, tile, address, kind, pal, b)
                },
            }
        } else {
            r is Ok && decoded_bound(a, mem, slot, tile, address, kind, seq![], b)
        }
    }
}

/// What importing texture slot `slot` of `a` from `mem` returns as `r` and
/// leaves as `b`: only the output, the slot's binding, the cache and the
/// handle counter change.
pub open spec fn import_outcome(a: &RDP, mem: Seq<u8>, slot: usize, r: Result<(), RdpError>, b: &RDP) -> bool {
    &&& (RDP {
        output: b.output,
        rendering_state: RenderingState { textures: b.rendering_state.textures, ..a.rendering_state },
        texture_manager: b.texture_manager,
        next_texture_handle: b.next_texture_handle,
        ..*a
    }) == *b
    &&& b.output.vertex_batches == a.output.vertex_batches
    &&& {
        let t = a.texture_state.tile as int + slot;
        if t >= NUM_TILE_DESCRIPTORS {
            r == Err::<(), RdpError>(RdpError::TileOutOfRange(t as u8)) && *b == *a
        } else {
            let tile = a.tile_descriptors@[t];
            match tmem_entry(a, slot as u16) {
                None => r == Err::<(), RdpError>(RdpError::MissingTmemEntry(slot as u16))
                    && placeholder_bound(a, slot, b),
                Some(e) => match lookup_spec(a.texture_manager@, slot, e.address, tile.fmt, tile.siz) {
                    Some(cached) => {
                        &&& r is Ok
                        &&& b.rendering_state.textures@ == a.rendering_state.textures@.update(slot as int, cached)
                        &&& b.output.pixel_data == a.output.pixel_data
                        &&& b.texture_manager == a.texture_manager
                        &&& b.next_texture_handle == a.next_texture_handle
                        &&& b.output.commands@ == a.output.commands@ + change_if(
                            a.rendering_state.textures@[slot as int].handle != cached.handle,
                            GfxCommand::BindTexture { slot: slot as u8, handle: cached.handle },
                        )
                    },
                    None => decode_outcome(a, mem, slot, tile, e.address, r, b),
                },
            }
        }
    }
}

/// The faults an import result adds to the fault list.
pub open spec fn error_list(r: Result<(), RdpError>) -> Seq<RdpError> {
    match r {
        Ok(_) => seq![],
        Err(e) => seq![e],
    }
}

/// `b` is `a` after re-importing slot `slot` when it is marked changed:
/// the batch is flushed, the slot imported, a fault recorded, and the mark
/// cleared. An unmarked slot only keeps its cleared mark.
pub open spec fn slot_refreshed(a: &RDP, mem: Seq<u8>, slot: usize, b: &RDP) -> bool {
    &&& b.textures_changed@ == a.textures_changed@.update(slot as int, false)
    &&& if a.textures_changed@[slot as int] {
        exists|f: RDP, g: RDP, r: Result<(), RdpError>|
            #![trigger import_outcome(&f, mem, slot, r, &g)]
            RDP::same_but_batch(a, &f) && RDP::flushed_output(a, &f) && f.buf_vbo_num_tris == 0
                && import_outcome(&f, mem, slot, r, &g)
                && *b == (RDP { errors: b.errors, textures_changed: b.textures_changed, ..g })
                && b.errors@ == g.errors@ + error_list(r)
    } else {
        *b == (RDP { textures_changed: b.textures_changed, ..*a })
    }
}

/// `b` is `a` after syncing the sampler of slot `slot` with its tile and
/// the filter mode: when they differ from the bound texture's, the batch is
/// flushed and the new parameters are submitted; otherwise nothing changes.
pub open spec fn sampler_updated(a: &RDP, slot: usize, b: &RDP) -> bool {
    let t = a.texture_state.tile as int + slot;
    if t < NUM_TILE_DESCRIPTORS {
        let tile = a.tile_descriptors@[t];
        let lf = linear_filter_of(a.other_mode_h);
        let tex = a.rendering_state.textures@[slot as int];
        if lf != tex.linear_filter || tile.cms != tex.cms || tile.cmt != tex.cmt {
            &&& b.output.commands@ == a.output.commands@ + pending_draw(a) + seq![
                GfxCommand::SetSamplerParameters { slot: slot as u8, linear_filter: lf, cms: tile.cms, cmt: tile.cmt },
            ]
            &&& b.output.vertex_batches@ == flushed_batches(a)
            &&& b.output.pixel_data == a.output.pixel_data
            &&& b.buf_vbo_num_tris == 0
            &&& b.rendering_state.textures@ == a.rendering_state.textures@.update(
                slot as int,
                Texture { linear_filter: lf, cms: tile.cms, cmt: tile.cmt, ..tex },
            )
            &&& (RDP {
                output: b.output,
                rendering_state: RenderingState { textures: b.rendering_state.textures, ..a.rendering_state },
                buf_vbo: b.buf_vbo,
                buf_vbo_num_tris: b.buf_vbo_num_tris,
                ..*a
            }) == *b
        } else {
            *b == *a
        }
    } else {
        *b == *a
    }
}

/// `b` is `a` after bringing slot `slot` up to date: refreshed, then its
/// sampler synced.
pub open spec fn slot_flushed(a: &RDP, mem: Seq<u8>, slot: usize, b: &RDP) -> bool {
    exists|m: RDP| #![trigger slot_refreshed(a, mem, slot, &m)]
        slot_refreshed(a, mem, slot, &m) && sampler_updated(&m, slot, b)
}

/// `b` is `a` after bringing the bound textures up to date: a mip-mapping
/// request is recorded as a fault, then slot 0 is brought up to date, then
/// slot 1 when it is sampled; an unsampled slot 1 is left as it is.
pub open spec fn textures_flushed(a: &RDP, mem: Seq<u8>, b: &RDP) -> bool {
    let lod = (a.other_mode_h >> G_MDSFT_TEXTLOD) & 1 != 0;
    exists|a1: RDP, m: RDP| #![trigger slot_flushed(&a1, mem, 0, &m)]
        a1 == (RDP { errors: a1.errors, ..*a })
            && a1.errors@ == (if lod { a.errors@.push(RdpError::MipMappingUnsupported) } else { a.errors@ })
            && slot_flushed(&a1, mem, 0, &m)
            && (if a.uses_texture1_spec() { slot_flushed(&m, mem, 1, b) } else { *b == m })
}

impl RDP {
    /// The texture filter asked for by `mode_h`, or `None` for the reserved code.
    pub fn get_textfilter_from_other_mode_h(mode_h: u32) -> (r: Option<TextFilt>)
        ensures
            r == textfilt_of(mode_h),
    {
        let f = (mode_h >> G_MDSFT_TEXTFILT) & 3;
        if f == G_TF_POINT {
            Some(TextFilt::Point)
        } else if f == G_TF_BILERP {
            Some(TextFilt::Bilerp)
        } else if f == G_TF_AVERAGE {
            Some(TextFilt::Average)
        } else {
            None
        }
    }

    /// The cycle type asked for by `mode_h`.
    pub fn get_cycle_type_from_other_mode_h(mode_h: u32) -> (r: CycleType)
        ensures
            r == cycle_type_of(mode_h),
    {
        let c = (mode_h >> G_MDSFT_CYCLETYPE) & 3;
        if c == 0 {
            CycleType::OneCycle
        } else if c == 1 {
            CycleType::TwoCycle
        } else if c == 2 {
            CycleType::Copy
        } else {
            CycleType::Fill
        }
    }

    /// Whether the second texture slot is sampled: in two-cycle mode, when
    /// the combine expressions read texture 1.
    pub fn uses_texture1(&self) -> (r: bool)
        ensures
            r == (cycle_type_of(self.other_mode_h) == CycleType::TwoCycle && (self.combine.c0@.contains(
                crate::combiner::CCMUX_TEXEL1,
            ) || self.combine.a0@.contains(crate::combiner::ACMUX_TEXEL1))),
    {
        RDP::get_cycle_type_from_other_mode_h(self.other_mode_h) == CycleType::TwoCycle
            && self.combine.uses_texture1()
    }

    fn lookup_tmem(&self, key: u16) -> (r: Option<usize>)
        ensures
            r == (match tmem_entry(self, key) {
                Some(e) => Some(e.address),
                None => None::<usize>,
            }),
    {
        broadcast use vstd::std_specs::hash::group_hash_axioms;

        match self.tmem_map.get(&key) {
            Some(e) => Some(e.address),
            None => None,
        }
    }

    /// Binds a placeholder texture to `slot` in place of one that cannot be
    /// decoded.
    fn bind_placeholder(&mut self, slot: usize)
        requires
            old(self).wf(),
            slot < 2,
        ensures
            final(self).wf(),
            placeholder_bound(old(self), slot, final(self)),
            final(self).output.vertex_batches == old(self).output.vertex_batches,
            final(self).next_texture_handle == old(self).next_texture_handle.wrapping_add(1),
            (RDP {
                output: final(self).output,
                rendering_state: RenderingState {
                    textures: final(self).rendering_state.textures,
                    ..old(self).rendering_state
                },
                next_texture_handle: final(self).next_texture_handle,
                ..*old(self)
            }) == *final(self),
    {
        let handle = self.next_texture_handle;
        let mut pixels: Vec<u8> = Vec::new();
        pixels.push(255u8);
        pixels.push(255u8);
        pixels.push(255u8);
        pixels.push(255u8);
        assert(pixels@ =~= seq![255u8, 255u8, 255u8, 255u8]);
        self.output.push_upload(slot as u8, handle, 1, 1, pixels);
        assert(self.output.pixel_data@.drop_last() =~= old(self).output.pixel_data@);
        self.rendering_state.textures[slot] = Texture {
            tmem_index: slot,
            address: 0,
            fmt: 0,
            siz: 0,
            handle,
            width: 1,
            height: 1,
            linear_filter: false,
            cms: 0,
            cmt: 0,
        };
        self.next_texture_handle = handle.wrapping_add(1);
    }

    /// Binds the texture cached under (slot, address, format, size) to
    /// `slot`, if there is one; a bind is submitted only when another
    /// texture is bound there. Returns whether there was one.
    pub fn lookup_texture(&mut self, slot: usize, address: usize, fmt: u8, siz: u8) -> (r: bool)
        requires
            old(self).wf(),
            slot < 2,
        ensures
            final(self).wf(),
            r == lookup_spec(old(self).texture_manager@, slot, address, fmt, siz) is Some,
            match lookup_spec(old(self).texture_manager@, slot, address, fmt, siz) {
                Some(cached) => {
                    &&& final(self).rendering_state.textures@ == old(self).rendering_state.textures@.update(slot as int, cached)
                    &&& final(self).output.commands@ == old(self).output.commands@ + change_if(
                        old(self).rendering_state.textures@[slot as int].handle != cached.handle,
                        GfxCommand::BindTexture { slot: slot as u8, handle: cached.handle },
                    )
                    &&& final(self).output.pixel_data == old(self).output.pixel_data
                    &&& final(self).output.vertex_batches == old(self).output.vertex_batches
                    &&& (RDP {
                        output: final(self).output,
                        rendering_state: RenderingState {
                            textures: final(self).rendering_state.textures,
                            ..old(self).rendering_state
                        },
                        ..*old(self)
                    }) == *final(self)
                },
                None => *final(self) == *old(self),
            },
    {
        match self.texture_manager.lookup(slot, address, fmt, siz) {
            Some(cached) => {
                if self.rendering_state.textures[slot].handle != cached.handle {
                    self.output.push(GfxCommand::BindTexture { slot: slot as u8, handle: cached.handle });
                }
                self.rendering_state.textures[slot] = cached;
                assert(self.rendering_state.textures@ =~= old(self).rendering_state.textures@.update(slot as int, cached));
                assert(self.output.commands@ =~= old(self).output.commands@ + change_if(
                    old(self).rendering_state.textures@[slot as int].handle != cached.handle,
                    GfxCommand::BindTexture { slot: slot as u8, handle: cached.handle },
                ));
                true
            },
            None => false,
        }
    }

    /// Imports the texture of texture slot `slot` (0 or 1) from `mem`: the
    /// tile descriptor is the current tile plus `slot`, its data lies at the
    /// address mapped for `slot`. A texture cached under the same slot,
    /// address, format and size is bound again without decoding; otherwise
    /// the tile is decoded, uploaded under a fresh handle and cached. Where
    /// the tile cannot be decoded, a placeholder is bound and the fault is
    /// returned.
    pub fn import_tile_texture(&mut self, mem: &[u8], slot: usize) -> (r: Result<(), RdpError>)
        requires
            old(self).wf(),
            slot < 2,
        ensures
            final(self).wf(),
            final(self).output.vertex_batches == old(self).output.vertex_batches,
            import_outcome(old(self), mem@, slot, r, final(self)),
            final(self).rendering_state.textures@[1 - slot] == old(self).rendering_state.textures@[1 - slot],
            (RDP {
                output: final(self).output,
                rendering_state: RenderingState {
                    textures: final(self).rendering_state.textures,
                    ..old(self).rendering_state
                },
                texture_manager: final(self).texture_manager,
                next_texture_handle: final(self).next_texture_handle,
                ..*old(self)
            }) == *final(self),
    {
        let t = self.texture_state.tile as usize + slot;
        if t >= NUM_TILE_DESCRIPTORS {
            return Err(RdpError::TileOutOfRange(t as u8));
        }
        let tile = self.tile_descriptors[t];
        let width = tile.get_width();
        let height = tile.get_height();
        let address = match self.lookup_tmem(slot as u16) {
            Some(a) => a,
            None => {
                self.bind_placeholder(slot);
                return Err(RdpError::MissingTmemEntry(slot as u16));
            },
        };
        if self.lookup_texture(slot, address, tile.fmt, tile.siz) {
            return Ok(());
        }
        self.import_decoded(mem, slot, tile, address)
    }

    /// Decodes `tile` from `address` in `mem`, uploads it under a fresh
    /// handle, caches it and binds it to `slot`; binds a placeholder instead
    /// when it cannot be decoded.
    fn import_decoded(&mut self, mem: &[u8], slot: usize, tile: TileDescriptor, address: usize) -> (r: Result<(), RdpError>)
        requires
            old(self).wf(),
            slot < 2,
        ensures
            final(self).wf(),
            final(self).output.vertex_batches == old(self).output.vertex_batches,
            decode_outcome(old(self), mem@, slot, tile, address, r, final(self)),
            (RDP {
                output: final(self).output,
                rendering_state: RenderingState {
                    textures: final(self).rendering_state.textures,
                    ..old(self).rendering_state
                },
                texture_manager: final(self).texture_manager,
                next_texture_handle: final(self).next_texture_handle,
                ..*old(self)
            }) == *final(self),
            final(self).rendering_state.textures@[1 - slot] == old(self).rendering_state.textures@[1 - slot],
    {
        let width = tile.get_width();
        let height = tile.get_height();
        let kind = match texel_kind(tile.fmt, tile.siz) {
            Some(k) => k,
            None => {
                self.bind_placeholder(slot);
                return Err(RdpError::UnsupportedTextureFormat { fmt: tile.fmt, siz: tile.siz });
            },
        };
        assert(width as int * height as int <= 16384 * 16384) by (nonlinear_arith)
            requires
                width <= 16384,
                height <= 16384,
        ;
        if width as u64 * height as u64 > MAX_TEXELS as u64 {
            self.bind_placeholder(slot);
            return Err(RdpError::TextureTooLarge { width, height });
        }
        let n = width as usize * height as usize;
        let needed = byte_count(kind, n);
        if address > mem.len() || mem.len() - address < needed {
            self.bind_placeholder(slot);
            return Err(RdpError::TextureOutOfBounds { address });
        }
        let palette: Vec<u8> = if kind == TexelKind::Ci4 || kind == TexelKind::Ci8 {
            let key = 0xffffu16 - slot as u16;
            let pal_address = match self.lookup_tmem(key) {
                Some(a) => a,
                None => {
                    self.bind_placeholder(slot);
                    return Err(RdpError::MissingTmemEntry(key));
                },
            };
            let entries: usize = if tile.siz == crate::texture::G_IM_SIZ_4B { 16 } else { 256 };
            if pal_address > mem.len() || mem.len() - pal_address < 2 * entries {
                self.bind_placeholder(slot);
                return Err(RdpError::TextureOutOfBounds { address: pal_address });
            }
            let mode = (self.other_mode_h >> G_MDSFT_TEXTLUT) & 3;
            translate_tlut(&mem[pal_address..mem.len()], tile.siz, mode)
        } else {
            Vec::new()
        };
        proof {
            if kind == TexelKind::Ci4 || kind == TexelKind::Ci8 {
                assert(palette_entries(tile.siz) == 16 || palette_entries(tile.siz) == 256);
            }
        }
        let data = &mem[address..mem.len()];
        let pixels = decode_texels(kind, data, palette.as_slice(), n);
        let handle = self.next_texture_handle;
        self.output.push_upload(slot as u8, handle, width, height, pixels);
        let tex = Texture {
            tmem_index: slot,
            address,
            fmt: tile.fmt,
            siz: tile.siz,
            handle,
            width,
            height,
            linear_filter: false,
            cms: 0,
            cmt: 0,
        };
        self.texture_manager.insert(tex);
        self.rendering_state.textures[slot] = tex;
        self.next_texture_handle = handle.wrapping_add(1);
        assert(self.output.pixel_data@.drop_last() =~= old(self).output.pixel_data@);
        Ok(())
    }
}

/// `b` is `a` with other texture bindings, cache, output and faults.
pub open spec fn same_but_textures(a: &RDP, b: &RDP) -> bool {
    (RDP {
        output: b.output,
        rendering_state: RenderingState { textures: b.rendering_state.textures, ..a.rendering_state },
        texture_manager: b.texture_manager,
        textures_changed: b.textures_changed,
        next_texture_handle: b.next_texture_handle,
        errors: b.errors,
        buf_vbo: b.buf_vbo,
        buf_vbo_num_tris: b.buf_vbo_num_tris,
        ..*a
    }) == *b
}

/// The sampler state of `tex` after binding it for `tile` under `mode_h`.
pub open spec fn sampler_synced(tex: Texture, tile: TileDescriptor, mode_h: u32) -> bool {
    tex.linear_filter == linear_filter_of(mode_h) && tex.cms == tile.cms && tex.cmt == tile.cmt
}

impl RDP {
    /// Re-imports texture slot `slot` when it is marked changed, flushing
    /// first, and clears the mark. Faults are recorded.
    fn refresh_texture_slot(&mut self, mem: &[u8], slot: usize)
        requires
            old(self).wf(),
            slot < 2,
        ensures
            final(self).wf(),
            same_but_textures(old(self), final(self)),
            final(self).textures_changed@ == old(self).textures_changed@.update(slot as int, false),
            !old(self).textures_changed@[slot as int] ==> *final(self) == (RDP {
                textures_changed: final(self).textures_changed,
                ..*old(self)
            }),
            final(self).rendering_state.textures@[1 - slot] == old(self).rendering_state.textures@[1 - slot],
            final(self).errors@.len() >= old(self).errors@.len(),
            final(self).errors@.subrange(0, old(self).errors@.len() as int) == old(self).errors@,
            slot_refreshed(old(self), mem@, slot, final(self)),
    {
        if self.textures_changed[slot] {
            self.flush();
            let ghost f = *self;
            let r = self.import_tile_texture(mem, slot);
            let ghost g = *self;
            match r {
                Ok(()) => {},
                Err(e) => self.errors.push(e),
            }
            assert(self.errors@ =~= g.errors@ + error_list(r));
            assert(self.errors@.subrange(0, old(self).errors@.len() as int) =~= old(self).errors@);
            self.textures_changed[slot] = false;
            assert(import_outcome(&f, mem@, slot, r, &g));
        } else {
            self.textures_changed[slot] = false;
        }
        assert(self.textures_changed@ =~= old(self).textures_changed@.update(slot as int, false));
        assert(old(self).errors@.subrange(0, old(self).errors@.len() as int) =~= old(self).errors@);
    }

    /// Sets the sampler parameters of texture slot `slot` from its tile and
    /// the filter mode, flushing first, when they differ from the bound ones.
    fn sync_sampler(&mut self, slot: usize)
        requires
            old(self).wf(),
            slot < 2,
        ensures
            final(self).wf(),
            (RDP {
                output: final(self).output,
                rendering_state: RenderingState { textures: final(self).rendering_state.textures, ..old(self).rendering_state },
                buf_vbo: final(self).buf_vbo,
                buf_vbo_num_tris: final(self).buf_vbo_num_tris,
                ..*old(self)
            }) == *final(self),
            final(self).output.pixel_data == old(self).output.pixel_data,
            old(self).texture_state.tile + slot < NUM_TILE_DESCRIPTORS ==> sampler_synced(
                final(self).rendering_state.textures@[slot as int],
                old(self).tile_descriptors@[old(self).texture_state.tile + slot],
                old(self).other_mode_h,
            ),
            final(self).rendering_state.textures@[1 - slot] == old(self).rendering_state.textures@[1 - slot],
            sampler_updated(old(self), slot, final(self)),
    {
        let t = self.texture_state.tile as usize + slot;
        if t < NUM_TILE_DESCRIPTORS {
            let tile = self.tile_descriptors[t];
            let linear_filter = match RDP::get_textfilter_from_other_mode_h(self.other_mode_h) {
                Some(TextFilt::Point) => false,
                _ => true,
            };
            let tex = self.rendering_state.textures[slot];
            if linear_filter != tex.linear_filter || tile.cms != tex.cms || tile.cmt != tex.cmt {
                self.flush();
                self.output.push(
                    GfxCommand::SetSamplerParameters {
                        slot: slot as u8,
                        linear_filter,
                        cms: tile.cms,
                        cmt: tile.cmt,
                    },
                );
                self.rendering_state.textures[slot] = Texture {
                    linear_filter,
                    cms: tile.cms,
                    cmt: tile.cmt,
                    ..tex
                };
                assert(self.output.commands@ =~= old(self).output.commands@ + pending_draw(old(self)) + seq![
                    GfxCommand::SetSamplerParameters { slot: slot as u8, linear_filter, cms: tile.cms, cmt: tile.cmt },
                ]);
            }
        }
    }

    /// Brings texture slot `slot` up to date: re-imports it when it is marked
    /// changed, then syncs its sampler parameters.
    fn flush_texture_slot(&mut self, mem: &[u8], slot: usize)
        requires
            old(self).wf(),
            slot < 2,
        ensures
            final(self).wf(),
            same_but_textures(old(self), final(self)),
            final(self).textures_changed@ == old(self).textures_changed@.update(slot as int, false),
            !old(self).textures_changed@[slot as int] ==> final(self).texture_manager == old(self).texture_manager
                && final(self).next_texture_handle == old(self).next_texture_handle
                && final(self).output.pixel_data == old(self).output.pixel_data,
            old(self).texture_state.tile + slot < NUM_TILE_DESCRIPTORS ==> sampler_synced(
                final(self).rendering_state.textures@[slot as int],
                old(self).tile_descriptors@[old(self).texture_state.tile + slot],
                old(self).other_mode_h,
            ),
            final(self).rendering_state.textures@[1 - slot] == old(self).rendering_state.textures@[1 - slot],
            final(self).errors@.len() >= old(self).errors@.len(),
            final(self).errors@.subrange(0, old(self).errors@.len() as int) == old(self).errors@,
            slot_flushed(old(self), mem@, slot, final(self)),
    {
        self.refresh_texture_slot(mem, slot);
        let ghost m = *self;
        self.sync_sampler(slot);
        assert(slot_refreshed(old(self), mem@, slot, &m));
    }

    /// Brings the bound textures up to date with the tiles: slot 0 always,
    /// slot 1 when it is sampled. Mip-mapping is not emulated: when it is
    /// asked for, the fault is recorded and textures are handled as tiles.
    pub fn flush_textures(&mut self, mem: &[u8])
        requires
            old(self).wf(),
        ensures
            final(self).wf(),
            same_but_textures(old(self), final(self)),
            !final(self).textures_changed@[0],
            old(self).uses_texture1_spec() ==> !final(self).textures_changed@[1],
            !old(self).uses_texture1_spec() ==> final(self).textures_changed@[1] == old(self).textures_changed@[1],
            old(self).texture_state.tile < NUM_TILE_DESCRIPTORS ==> sampler_synced(
                final(self).rendering_state.textures@[0],
                old(self).tile_descriptors@[old(self).texture_state.tile as int],
                old(self).other_mode_h,
            ),
            old(self).uses_texture1_spec() && old(self).texture_state.tile + 1 < NUM_TILE_DESCRIPTORS
                ==> sampler_synced(
                final(self).rendering_state.textures@[1],
                old(self).tile_descriptors@[old(self).texture_state.tile + 1],
                old(self).other_mode_h,
            ),
            (old(self).other_mode_h >> G_MDSFT_TEXTLOD) & 1 != 0 ==> final(self).errors@.len()
                > old(self).errors@.len() && final(self).errors@[old(self).errors@.len() as int]
                == RdpError::MipMappingUnsupported,
            !old(self).uses_texture1_spec() ==> final(self).rendering_state.textures@[1]
                == old(self).rendering_state.textures@[1],
            textures_flushed(old(self), mem@, final(self)),
    {
        if (self.other_mode_h >> G_MDSFT_TEXTLOD) & 1 != 0 {
            self.errors.push(RdpError::MipMappingUnsupported);
        }
        let ghost a1 = *self;
        let ghost e0 = self.errors@;
        let uses1 = self.uses_texture1();
        self.flush_texture_slot(mem, 0);
        let ghost m = *self;
        assert(slot_flushed(&a1, mem@, 0, &m));
        if uses1 {
            let ghost e1 = self.errors@;
            self.flush_texture_slot(mem, 1);
            assert(self.errors@.subrange(0, e0.len() as int) =~= e1.subrange(0, e0.len() as int));
        }
        proof {
            if (old(self).other_mode_h >> G_MDSFT_TEXTLOD) & 1 != 0 {
                assert(e0.len() > old(self).errors@.len());
                assert(e0[old(self).errors@.len() as int] == RdpError::MipMappingUnsupported);
                assert(self.errors@[old(self).errors@.len() as int] == self.errors@.subrange(0, e0.len() as int)[old(self).errors@.len() as int]);
            }
        }
    }

    pub open spec fn uses_texture1_spec(&self) -> bool {
        cycle_type_of(self.other_mode_h) == CycleType::TwoCycle && (self.combine.c0@.contains(
            crate::combiner::CCMUX_TEXEL1,
        ) || self.combine.a0@.contains(crate::combiner::ACMUX_TEXEL1))
    }
}

/// Bytes of source data that `n` texels of `kind` occupy.
fn byte_count(kind: TexelKind, n: usize) -> (r: usize)
    requires
        n <= MAX_TEXELS,
    ensures
        r == bytes_for(kind, n as int),
{
    match kind {
        TexelKind::Rgba16 | TexelKind::Ia16 => 2 * n,
        TexelKind::Rgba32 => 4 * n,
        TexelKind::Ia8 | TexelKind::I8 | TexelKind::Ci8 => n,
        TexelKind::Ia4 | TexelKind::I4 | TexelKind::Ci4 => (n + 1) / 2,
    }
}

/// The texture key of slot `slot` of `a`: slot, mapped address, format and
/// size of its tile.
pub open spec fn slot_key_cached(a: &RDP, slot: usize) -> bool {
    let t = a.texture_state.tile as int + slot;
    t < NUM_TILE_DESCRIPTORS && match tmem_entry(a, slot as u16) {
        Some(e) => {
            let tile = a.tile_descriptors@[t];
            lookup_spec(a.texture_manager@, slot, e.address, tile.fmt, tile.siz) is Some
        },
        None => false,
    }
}

/// Importing a slot whose key is cached decodes nothing: no pixels are
/// uploaded and the cache is left as it is.
pub proof fn lemma_cached_import_does_not_decode(
    a: &RDP,
    mem: Seq<u8>,
    slot: usize,
    r: Result<(), RdpError>,
    b: &RDP,
)
    requires
        slot_key_cached(a, slot),
        import_outcome(a, mem, slot, r, b),
    ensures
        r is Ok,
        b.output.pixel_data == a.output.pixel_data,
        b.texture_manager == a.texture_manager,
        b.next_texture_handle == a.next_texture_handle,
{
}

/// After a successful import of a slot, the slot's key is cached, so an
/// import of the same key that follows decodes nothing.
pub proof fn lemma_import_caches_key(a: &RDP, mem: Seq<u8>, slot: usize, r: Result<(), RdpError>, b: &RDP)
    requires
        import_outcome(a, mem, slot, r, b),
        r is Ok,
        b.texture_state == a.texture_state,
        b.tile_descriptors == a.tile_descriptors,
        b.tmem_map == a.tmem_map,
    ensures
        slot_key_cached(b, slot),
{
    let t = a.texture_state.tile as int + slot;
    if t < NUM_TILE_DESCRIPTORS {
        match tmem_entry(a, slot as u16) {
            Some(e) => {
                let tile = a.tile_descriptors@[t];
                match lookup_spec(a.texture_manager@, slot, e.address, tile.fmt, tile.siz) {
                    Some(_) => {},
                    None => {
                        let tex = imported_texture(slot, e.address, tile, a.next_texture_handle);
                        crate::texture_cache::lemma_lookup_after_insert(
                            a.texture_manager@,
                            a.texture_manager.capacity as nat,
                            tex,
                        );
                    },
                }
            },
            None => {},
        }
    }
}

} // verus!
