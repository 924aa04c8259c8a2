//! Decoding of console texel encodings into linear RGBA8 pixel buffers.
use vstd::prelude::*;

verus! {

/// Texel format: direct color.
pub const G_IM_FMT_RGBA: u8 = 0;
/// Texel format: color-indexed (through a palette).
pub const G_IM_FMT_CI: u8 = 2;
/// Texel format: intensity with alpha.
pub const G_IM_FMT_IA: u8 = 3;
/// Texel format: intensity.
pub const G_IM_FMT_I: u8 = 4;

/// Texel size: four bits.
pub const G_IM_SIZ_4B: u8 = 0;
/// Texel size: eight bits.
pub const G_IM_SIZ_8B: u8 = 1;
/// Texel size: sixteen bits.
pub const G_IM_SIZ_16B: u8 = 2;
/// Texel size: thirty-two bits.
pub const G_IM_SIZ_32B: u8 = 3;

/// Palette mode: none selected (palettes are then read as RGBA16).
pub const G_TT_NONE: u32 = 0;
/// Palette mode: 16-bit RGBA entries.
pub const G_TT_RGBA16: u32 = 2;
/// Palette mode: 16-bit intensity-alpha entries.
pub const G_TT_IA16: u32 = 3;

/// Largest number of texels a decoder accepts.
pub const MAX_TEXELS: usize = 0x100_0000;

/// The supported pairs of texel format and size.
#[derive(Clone, Copy, Debug, PartialEq, Eq, Structural)]
pub enum TexelKind {
    Rgba16,
    Rgba32,
    Ia4,
    Ia8,
    Ia16,
    I4,
    I8,
    Ci4,
    Ci8,
}

/// The texel kind of a (format, size) pair, if it is supported.
pub open spec fn kind_of(fmt: u8, siz: u8) -> Option<TexelKind> {
    if fmt == G_IM_FMT_RGBA && siz == G_IM_SIZ_16B {
        Some(TexelKind::Rgba16)
    } else if fmt == G_IM_FMT_RGBA && siz == G_IM_SIZ_32B {
        Some(TexelKind::Rgba32)
    } else if fmt == G_IM_FMT_IA && siz == G_IM_SIZ_4B {
        Some(TexelKind::Ia4)
    } else if fmt == G_IM_FMT_IA && siz == G_IM_SIZ_8B {
        Some(TexelKind::Ia8)
    } else if fmt == G_IM_FMT_IA && siz == G_IM_SIZ_16B {
        Some(TexelKind::Ia16)
    } else if fmt == G_IM_FMT_I && siz == G_IM_SIZ_4B {
        Some(TexelKind::I4)
    } else if fmt == G_IM_FMT_I && siz == G_IM_SIZ_8B {
        Some(TexelKind::I8)
    } else if fmt == G_IM_FMT_CI && siz == G_IM_SIZ_4B {
        Some(TexelKind::Ci4)
    } else if fmt == G_IM_FMT_CI && siz == G_IM_SIZ_8B {
        Some(TexelKind::Ci8)
    } else {
        None
    }
}

/// The texel kind of a (format, size) pair, if it is supported.
pub fn texel_kind(fmt: u8, siz: u8) -> (r: Option<TexelKind>)
    ensures
        r == kind_of(fmt, siz),
{
    if fmt == G_IM_FMT_RGBA && siz == G_IM_SIZ_16B {
        Some(TexelKind::Rgba16)
    } else if fmt == G_IM_FMT_RGBA && siz == G_IM_SIZ_32B {
        Some(TexelKind::Rgba32)
    } else if fmt == G_IM_FMT_IA && siz == G_IM_SIZ_4B {
        Some(TexelKind::Ia4)
    } else if fmt == G_IM_FMT_IA && siz == G_IM_SIZ_8B {
        Some(TexelKind::Ia8)
    } else if fmt == G_IM_FMT_IA && siz == G_IM_SIZ_16B {
        Some(TexelKind::Ia16)
    } else if fmt == G_IM_FMT_I && siz == G_IM_SIZ_4B {
        Some(TexelKind::I4)
    } else if fmt == G_IM_FMT_I && siz == G_IM_SIZ_8B {
        Some(TexelKind::I8)
    } else if fmt == G_IM_FMT_CI && siz == G_IM_SIZ_4B {
        Some(TexelKind::Ci4)
    } else if fmt == G_IM_FMT_CI && siz == G_IM_SIZ_8B {
        Some(TexelKind::Ci8)
    } else {
        None
    }
}

/// Bytes of source data that `n` texels of `kind` occupy.
pub open spec fn bytes_for(kind: TexelKind, n: int) -> int {
    match kind {
        TexelKind::Rgba16 | TexelKind::Ia16 => 2 * n,
        TexelKind::Rgba32 => 4 * n,
        TexelKind::Ia8 | TexelKind::I8 | TexelKind::Ci8 => n,
        TexelKind::Ia4 | TexelKind::I4 | TexelKind::Ci4 => (n + 1) / 2,
    }
}

/// Bytes of decoded RGBA8 palette that `kind` reads (zero for direct kinds).
pub open spec fn palette_bytes(kind: TexelKind) -> int {
    match kind {
        TexelKind::Ci4 => 64int,
        TexelKind::Ci8 => 1024int,
        _ => 0int,
    }
}

/// Widens a five-bit channel to eight bits.
pub open spec fn scale_5_8(x: u32) -> u8 {
    ((x << 3u32) | (x >> 2u32)) as u8
}

/// Widens a four-bit channel to eight bits.
pub open spec fn scale_4_8(x: u32) -> u8 {
    ((x << 4u32) | x) as u8
}

/// Widens a three-bit channel to eight bits.
pub open spec fn scale_3_8(x: u32) -> u8 {
    ((x << 5u32) | (x << 2u32) | (x >> 1u32)) as u8
}

/// Four-bit texel `i` of `data`: the high nibble first.
pub open spec fn nibble(data: Seq<u8>, i: int) -> u32 {
    if i % 2 == 0 {
        ((data[i / 2] as u32) >> 4u32) & 15
    } else {
        (data[i / 2] as u32) & 15
    }
}

/// Big-endian 16-bit word `i` of `data`.
pub open spec fn word16(data: Seq<u8>, i: int) -> u32 {
    ((data[2 * i] as u32) << 8u32) | (data[2 * i + 1] as u32)
}

/// An RGBA5551 color as RGBA8.
pub open spec fn rgba16_color(c: u32) -> Seq<u8> {
    seq![
        scale_5_8((c >> 11u32) & 31),
        scale_5_8((c >> 6u32) & 31),
        scale_5_8((c >> 1u32) & 31),
        if c & 1 != 0 { 255u8 } else { 0u8 },
    ]
}

/// Entry `k` of a decoded RGBA8 palette.
pub open spec fn palette_entry(pal: Seq<u8>, k: int) -> Seq<u8> {
    seq![pal[4 * k], pal[4 * k + 1], pal[4 * k + 2], pal[4 * k + 3]]
}

/// Texel `i` of `data` as RGBA8.
pub open spec fn texel_spec(kind: TexelKind, data: Seq<u8>, pal: Seq<u8>, i: int) -> Seq<u8> {
    match kind {
        TexelKind::Rgba16 => rgba16_color(word16(data, i)),
        TexelKind::Rgba32 => seq![data[4 * i], data[4 * i + 1], data[4 * i + 2], data[4 * i + 3]],
        TexelKind::Ia4 => {
            let n = nibble(data, i);
            let v = scale_3_8(n >> 1u32);
            seq![v, v, v, if n & 1 != 0 { 255u8 } else { 0u8 }]
        },
        TexelKind::Ia8 => {
            let b = data[i] as u32;
            let v = scale_4_8(b >> 4u32);
            seq![v, v, v, scale_4_8(b & 15)]
        },
        TexelKind::Ia16 => seq![data[2 * i], data[2 * i], data[2 * i], data[2 * i + 1]],
        TexelKind::I4 => {
            let v = scale_4_8(nibble(data, i));
            seq![v, v, v, v]
        },
        TexelKind::I8 => seq![data[i], data[i], data[i], data[i]],
        TexelKind::Ci4 => palette_entry(pal, nibble(data, i) as int),
        TexelKind::Ci8 => palette_entry(pal, data[i] as int),
    }
}

/// The first `n` texels of `data` as RGBA8, four bytes per texel.
pub open spec fn decode_spec(kind: TexelKind, data: Seq<u8>, pal: Seq<u8>, n: nat) -> Seq<u8>
    decreases n,
{
    if n == 0 {
        seq![]
    } else {
        decode_spec(kind, data, pal, (n - 1) as nat) + texel_spec(kind, data, pal, n - 1)
    }
}

proof fn lemma_decode_len(kind: TexelKind, data: Seq<u8>, pal: Seq<u8>, n: nat)
    ensures
        decode_spec(kind, data, pal, n).len() == 4 * n,
    decreases n,
{
    if n > 0 {
        lemma_decode_len(kind, data, pal, (n - 1) as nat);
    }
}

fn get_nibble(data: &[u8], i: usize) -> (r: u32)
    requires
        i / 2 < data@.len(),
    ensures
        r == nibble(data@, i as int),
        r < 16,
{
    let b = data[i / 2] as u32;
    if i % 2 == 0 {
        assert((b >> 4u32) & 15 < 16) by (bit_vector);
        (b >> 4u32) & 15
    } else {
        assert(b & 15 < 16) by (bit_vector);
        b & 15
    }
}

fn rgba16_to_rgba32(c: u32) -> (r: [u8; 4])
    ensures
        r@ == rgba16_color(c),
{
    let r = [
        (((c >> 11u32) & 31) << 3u32 | ((c >> 11u32) & 31) >> 2u32) as u8,
        (((c >> 6u32) & 31) << 3u32 | ((c >> 6u32) & 31) >> 2u32) as u8,
        (((c >> 1u32) & 31) << 3u32 | ((c >> 1u32) & 31) >> 2u32) as u8,
        if c & 1 != 0 { 255u8 } else { 0u8 },
    ];
    assert(r@ =~= rgba16_color(c));
    r
}

/// Decodes texel `i` of `data`.
fn decode_texel(kind: TexelKind, data: &[u8], pal: &[u8], i: usize) -> (r: [u8; 4])
    requires
        i < MAX_TEXELS,
        bytes_for(kind, i as int + 1) <= data@.len(),
        palette_bytes(kind) <= pal@.len(),
    ensures
        r@ == texel_spec(kind, data@, pal@, i as int),
{
    let r = match kind {
        TexelKind::Rgba16 => {
            let c = ((data[2 * i] as u32) << 8u32) | (data[2 * i + 1] as u32);
            rgba16_to_rgba32(c)
        },
        TexelKind::Rgba32 => [data[4 * i], data[4 * i + 1], data[4 * i + 2], data[4 * i + 3]],
        TexelKind::Ia4 => {
            let n = get_nibble(data, i);
            let x = n >> 1u32;
            let v = ((x << 5u32) | (x << 2u32) | (x >> 1u32)) as u8;
            [v, v, v, if n & 1 != 0 { 255u8 } else { 0u8 }]
        },
        TexelKind::Ia8 => {
            let b = data[i] as u32;
            let v = (((b >> 4u32) << 4u32) | (b >> 4u32)) as u8;
            [v, v, v, (((b & 15) << 4u32) | (b & 15)) as u8]
        },
        TexelKind::Ia16 => [data[2 * i], data[2 * i], data[2 * i], data[2 * i + 1]],
        TexelKind::I4 => {
            let n = get_nibble(data, i);
            let v = ((n << 4u32) | n) as u8;
            [v, v, v, v]
        },
        TexelKind::I8 => [data[i], data[i], data[i], data[i]],
        TexelKind::Ci4 => {
            let k = get_nibble(data, i) as usize;
            [pal[4 * k], pal[4 * k + 1], pal[4 * k + 2], pal[4 * k + 3]]
        },
        TexelKind::Ci8 => {
            let k = data[i] as usize;
            [pal[4 * k], pal[4 * k + 1], pal[4 * k + 2], pal[4 * k + 3]]
        },
    };
    assert(r@ =~= texel_spec(kind, data@, pal@, i as int));
    r
}

/// Decodes the first `n` texels of `data` into RGBA8.
pub fn decode_texels(kind: TexelKind, data: &[u8], pal: &[u8], n: usize) -> (r: Vec<u8>)
    requires
        n <= MAX_TEXELS,
        bytes_for(kind, n as int) <= data@.len(),
        palette_bytes(kind) <= pal@.len(),
    ensures
        r@ == decode_spec(kind, data@, pal@, n as nat),
        r@.len() == 4 * n,
{
    let mut out: Vec<u8> = Vec::new();
    let mut i: usize = 0;
    while i < n
        invariant
            i <= n,
            n <= MAX_TEXELS,
            bytes_for(kind, n as int) <= data@.len(),
            palette_bytes(kind) <= pal@.len(),
            out@ == decode_spec(kind, data@, pal@, i as nat),
        decreases n - i,
    {
        assert(bytes_for(kind, i as int + 1) <= bytes_for(kind, n as int));
        let t = decode_texel(kind, data, pal, i);
        out.push(t[0]);
        out.push(t[1]);
        out.push(t[2]);
        out.push(t[3]);
        assert(out@ =~= decode_spec(kind, data@, pal@, (i + 1) as nat));
        i += 1;
    }
    proof {
        lemma_decode_len(kind, data@, pal@, n as nat);
    }
    out
}

/// Number of texels of a `width` by `height` tile.
pub open spec fn texel_count(width: u32, height: u32) -> int {
    width as int * height as int
}

/// Decodes a `width` by `height` tile of 16-bit RGBA (5-5-5-1) texels into RGBA8.
pub fn translate_tile_rgba16(data: &[u8], width: u32, height: u32) -> (r: Vec<u8>)
    requires
        texel_count(width, height) <= MAX_TEXELS,
        bytes_for(TexelKind::Rgba16, texel_count(width, height)) <= data@.len(),
    ensures
        r@ == decode_spec(TexelKind::Rgba16, data@, seq![], texel_count(width, height) as nat),
{
    let empty: [u8; 0] = [];
    assert(empty@ =~= Seq::<u8>::empty());
    decode_texels(TexelKind::Rgba16, data, &empty, width as usize * height as usize)
}

/// Decodes a `width` by `height` tile of 32-bit RGBA texels into RGBA8.
pub fn translate_tile_rgba32(data: &[u8], width: u32, height: u32) -> (r: Vec<u8>)
    requires
        texel_count(width, height) <= MAX_TEXELS,
        bytes_for(TexelKind::Rgba32, texel_count(width, height)) <= data@.len(),
    ensures
        r@ == decode_spec(TexelKind::Rgba32, data@, seq![], texel_count(width, height) as nat),
{
    let empty: [u8; 0] = [];
    assert(empty@ =~= Seq::<u8>::empty());
    decode_texels(TexelKind::Rgba32, data, &empty, width as usize * height as usize)
}

/// Decodes a `width` by `height` tile of 4-bit intensity-alpha (3-1) texels into RGBA8.
pub fn translate_tile_ia4(data: &[u8], width: u32, height: u32) -> (r: Vec<u8>)
    requires
        texel_count(width, height) <= MAX_TEXELS,
        bytes_for(TexelKind::Ia4, texel_count(width, height)) <= data@.len(),
    ensures
        r@ == decode_spec(TexelKind::Ia4, data@, seq![], texel_count(width, height) as nat),
{
    let empty: [u8; 0] = [];
    assert(empty@ =~= Seq::<u8>::empty());
    decode_texels(TexelKind::Ia4, data, &empty, width as usize * height as usize)
}

/// Decodes a `width` by `height` tile of 8-bit intensity-alpha (4-4) texels into RGBA8.
pub fn translate_tile_ia8(data: &[u8], width: u32, height: u32) -> (r: Vec<u8>)
    requires
        texel_count(width, height) <= MAX_TEXELS,
        bytes_for(TexelKind::Ia8, texel_count(width, height)) <= data@.len(),
    ensures
        r@ == decode_spec(TexelKind::Ia8, data@, seq![], texel_count(width, height) as nat),
{
    let empty: [u8; 0] = [];
    assert(empty@ =~= Seq::<u8>::empty());
    decode_texels(TexelKind::Ia8, data, &empty, width as usize * height as usize)
}

/// Decodes a `width` by `height` tile of 16-bit intensity-alpha (8-8) texels into RGBA8.
pub fn translate_tile_ia16(data: &[u8], width: u32, height: u32) -> (r: Vec<u8>)
    requires
        texel_count(width, height) <= MAX_TEXELS,
        bytes_for(TexelKind::Ia16, texel_count(width, height)) <= data@.len(),
    ensures
        r@ == decode_spec(TexelKind::Ia16, data@, seq![], texel_count(width, height) as nat),
{
    let empty: [u8; 0] = [];
    assert(empty@ =~= Seq::<u8>::empty());
    decode_texels(TexelKind::Ia16, data, &empty, width as usize * height as usize)
}

/// Decodes a `width` by `height` tile of 4-bit intensity texels into RGBA8.
pub fn translate_tile_i4(data: &[u8], width: u32, height: u32) -> (r: Vec<u8>)
    requires
        texel_count(width, height) <= MAX_TEXELS,
        bytes_for(TexelKind::I4, texel_count(width, height)) <= data@.len(),
    ensures
        r@ == decode_spec(TexelKind::I4, data@, seq![], texel_count(width, height) as nat),
{
    let empty: [u8; 0] = [];
    assert(empty@ =~= Seq::<u8>::empty());
    decode_texels(TexelKind::I4, data, &empty, width as usize * height as usize)
}

/// Decodes a `width` by `height` tile of 8-bit intensity texels into RGBA8.
pub fn translate_tile_i8(data: &[u8], width: u32, height: u32) -> (r: Vec<u8>)
    requires
        texel_count(width, height) <= MAX_TEXELS,
        bytes_for(TexelKind::I8, texel_count(width, height)) <= data@.len(),
    ensures
        r@ == decode_spec(TexelKind::I8, data@, seq![], texel_count(width, height) as nat),
{
    let empty: [u8; 0] = [];
    assert(empty@ =~= Seq::<u8>::empty());
    decode_texels(TexelKind::I8, data, &empty, width as usize * height as usize)
}

/// Decodes a `width` by `height` tile of 16-color indexed texels into RGBA8,
/// through `palette`, an RGBA8 palette of 16 entries.
pub fn translate_tile_ci4(data: &[u8], palette: &[u8], width: u32, height: u32) -> (r: Vec<u8>)
    requires
        texel_count(width, height) <= MAX_TEXELS,
        bytes_for(TexelKind::Ci4, texel_count(width, height)) <= data@.len(),
        palette_bytes(TexelKind::Ci4) <= palette@.len(),
    ensures
        r@ == decode_spec(TexelKind::Ci4, data@, palette@, texel_count(width, height) as nat),
{
    decode_texels(TexelKind::Ci4, data, palette, width as usize * height as usize)
}

/// Decodes a `width` by `height` tile of 256-color indexed texels into RGBA8,
/// through `palette`, an RGBA8 palette of 256 entries.
pub fn translate_tile_ci8(data: &[u8], palette: &[u8], width: u32, height: u32) -> (r: Vec<u8>)
    requires
        texel_count(width, height) <= MAX_TEXELS,
        bytes_for(TexelKind::Ci8, texel_count(width, height)) <= data@.len(),
        palette_bytes(TexelKind::Ci8) <= palette@.len(),
    ensures
        r@ == decode_spec(TexelKind::Ci8, data@, palette@, texel_count(width, height) as nat),
{
    decode_texels(TexelKind::Ci8, data, palette, width as usize * height as usize)
}

/// Number of palette entries an indexed texel size uses.
pub open spec fn palette_entries(siz: u8) -> nat {
    if siz == G_IM_SIZ_4B {
        16
    } else {
        256
    }
}

/// How palette entries are encoded under palette mode `mode`.
pub open spec fn palette_kind(mode: u32) -> TexelKind {
    if mode == G_TT_IA16 {
        TexelKind::Ia16
    } else {
        TexelKind::Rgba16
    }
}

/// Decodes the palette for indexed texels of size `siz` (16 entries for four
/// bits, 256 otherwise) from `data` into RGBA8. Entries are intensity-alpha
/// under the IA16 palette mode and RGBA16 under any other.
pub fn translate_tlut(data: &[u8], siz: u8, mode: u32) -> (r: Vec<u8>)
    requires
        2 * palette_entries(siz) <= data@.len(),
    ensures
        r@ == decode_spec(palette_kind(mode), data@, seq![], palette_entries(siz)),
        r@.len() == 4 * palette_entries(siz),
{
    let entries: usize = if siz == G_IM_SIZ_4B { 16 } else { 256 };
    let kind = if mode == G_TT_IA16 { TexelKind::Ia16 } else { TexelKind::Rgba16 };
    let empty: [u8; 0] = [];
    assert(empty@ =~= Seq::<u8>::empty());
    decode_texels(kind, data, &empty, entries)
}

} // verus!
