//! Translation of the packed othermode registers into backend draw state.
use vstd::prelude::*;

verus! {

/// Bit position of the depth-compare enable bit in `other_mode_l`.
pub const Z_CMP: u32 = 4;
/// Bit position of the depth-update (write) bit in `other_mode_l`.
pub const Z_UPD: u32 = 5;
/// Bit position of the two-bit zmode field in `other_mode_l`.
pub const ZMODE: u32 = 10;
/// Bit position of the "coverage times alpha" bit in `other_mode_l`.
pub const CVG_X_ALPHA: u32 = 12;
/// Bit position of the "alpha coverage select" bit in `other_mode_l`.
pub const ALPHA_CVG_SEL: u32 = 13;
/// Bit position of the force-blend bit in `other_mode_l`.
pub const FORCE_BL: u32 = 14;
/// Bit position of the second-cycle destination factor selector.
pub const B_2: u32 = 16;
/// Bit position of the second-cycle destination color selector.
pub const M_2: u32 = 20;
/// Bit position of the second-cycle source alpha selector.
pub const A_2: u32 = 24;
/// Bit position of the second-cycle source color selector.
pub const P_2: u32 = 28;

/// Opaque surfaces.
pub const ZMODE_OPA: u32 = 0;
/// Interpenetrating surfaces.
pub const ZMODE_INTER: u32 = 1;
/// Translucent surfaces.
pub const ZMODE_XLU: u32 = 2;
/// Decals.
pub const ZMODE_DEC: u32 = 3;

/// Color selector that names the framebuffer's existing color.
pub const G_BL_CLR_MEM: u32 = 1;
/// Alpha selector that is the constant zero.
pub const G_BL_A_ZERO: u32 = 3;

/// Destination factor selector: one minus the source alpha.
pub const G_BL_1MA: u32 = 0;
/// Destination factor selector: the framebuffer's alpha.
pub const G_BL_A_MEM: u32 = 1;
/// Destination factor selector: one.
pub const G_BL_1: u32 = 2;
/// Destination factor selector: zero.
pub const G_BL_0: u32 = 3;

/// Depth comparison function of the backend.
#[derive(Clone, Copy, Debug, PartialEq, Eq, Structural)]
pub enum CompareFunction {
    Always,
    Less,
    LessEqual,
}

/// Blend factor of the backend.
#[derive(Clone, Copy, Debug, PartialEq, Eq, Structural)]
pub enum BlendFactor {
    Zero,
    One,
    SrcAlpha,
    OneMinusSrcAlpha,
    DstAlpha,
}

/// One blend equation: `src * src_factor + dst * dst_factor`.
#[derive(Clone, Copy, Debug, PartialEq, Eq, Structural)]
pub struct BlendComponent {
    pub src_factor: BlendFactor,
    pub dst_factor: BlendFactor,
}

/// Blend state for the color and alpha channels.
#[derive(Clone, Copy, Debug, PartialEq, Eq, Structural)]
pub struct BlendState {
    pub color: BlendComponent,
    pub alpha: BlendComponent,
}

/// The blend state that replaces the destination with the source.
pub open spec fn replace_blend() -> BlendState {
    BlendState {
        color: BlendComponent { src_factor: BlendFactor::One, dst_factor: BlendFactor::Zero },
        alpha: BlendComponent { src_factor: BlendFactor::One, dst_factor: BlendFactor::Zero },
    }
}

/// The two-bit field of `mode` that starts at bit `shift`.
pub open spec fn field2(mode: u32, shift: u32) -> u32 {
    (mode >> shift) & 3
}

/// Whether bit `bit` of `mode` is set.
pub open spec fn bit_set(mode: u32, bit: u32) -> bool {
    mode & (1u32 << bit) != 0
}

/// The zmode field of `other_mode_l`.
pub open spec fn zmode_of(mode_l: u32) -> u32 {
    field2(mode_l, ZMODE)
}

/// Depth comparison for a zmode: decals pass on equal depth, all others on less.
pub open spec fn depth_compare_spec(zmode: u32) -> CompareFunction {
    if zmode == ZMODE_DEC {
        CompareFunction::LessEqual
    } else {
        CompareFunction::Less
    }
}

/// Depth comparison that `other_mode_l` asks for, if depth comparison is on.
pub open spec fn depth_compare_of(mode_l: u32) -> Option<CompareFunction> {
    if bit_set(mode_l, Z_CMP) {
        Some(depth_compare_spec(zmode_of(mode_l)))
    } else {
        None
    }
}

/// Polygon offset (slope-scaled depth bias) is on exactly for decals.
pub open spec fn polygon_offset_of(mode_l: u32) -> bool {
    zmode_of(mode_l) == ZMODE_DEC
}

/// Depth writes are on exactly when the depth-update bit is set.
pub open spec fn depth_write_of(mode_l: u32) -> bool {
    bit_set(mode_l, Z_UPD)
}

/// Source factor of an enabled blend.
pub open spec fn blend_src_factor_spec(mode_l: u32) -> BlendFactor {
    if field2(mode_l, A_2) == G_BL_A_ZERO {
        BlendFactor::Zero
    } else if bit_set(mode_l, ALPHA_CVG_SEL) && !bit_set(mode_l, CVG_X_ALPHA) {
        BlendFactor::One
    } else {
        BlendFactor::SrcAlpha
    }
}

/// Destination factor for the two-bit selector `param`, given the source factor.
pub open spec fn blend_dst_factor_spec(param: u32, src: BlendFactor) -> BlendFactor {
    if param == G_BL_1MA {
        if src == BlendFactor::One {
            BlendFactor::Zero
        } else {
            BlendFactor::OneMinusSrcAlpha
        }
    } else if param == G_BL_A_MEM {
        BlendFactor::DstAlpha
    } else if param == G_BL_1 {
        BlendFactor::One
    } else {
        BlendFactor::Zero
    }
}

/// Blending happens only when forced and when the destination is the framebuffer.
pub open spec fn blend_enabled(mode_l: u32) -> bool {
    bit_set(mode_l, FORCE_BL) && field2(mode_l, M_2) == G_BL_CLR_MEM
}

/// The blend state that `other_mode_l` asks for.
pub open spec fn blend_state_of(mode_l: u32) -> BlendState {
    if blend_enabled(mode_l) {
        let src = blend_src_factor_spec(mode_l);
        let c = BlendComponent {
            src_factor: src,
            dst_factor: blend_dst_factor_spec(field2(mode_l, B_2), src),
        };
        BlendState { color: c, alpha: c }
    } else {
        replace_blend()
    }
}

/// Reads the two-bit field of `mode` at `shift`.
pub fn get_field2(mode: u32, shift: u32) -> (r: u32)
    requires
        shift < 32,
    ensures
        r == field2(mode, shift),
        r < 4,
{
    let r = (mode >> shift) & 3;
    assert(((mode >> shift) & 3) < 4) by (bit_vector);
    r
}

/// Tests bit `bit` of `mode`.
pub fn is_bit_set(mode: u32, bit: u32) -> (r: bool)
    requires
        bit < 32,
    ensures
        r == bit_set(mode, bit),
{
    mode & (1u32 << bit) != 0
}

/// The zmode field of `other_mode_l`.
pub fn zmode(mode_l: u32) -> (r: u32)
    ensures
        r == zmode_of(mode_l),
        r < 4,
{
    get_field2(mode_l, ZMODE)
}

/// Depth comparison for a zmode, by an explicit table.
pub fn depth_compare_for_zmode(zmode: u32) -> (r: CompareFunction)
    ensures
        r == depth_compare_spec(zmode),
{
    match zmode {
        ZMODE_OPA => CompareFunction::Less,
        ZMODE_INTER => CompareFunction::Less,
        ZMODE_XLU => CompareFunction::Less,
        ZMODE_DEC => CompareFunction::LessEqual,
        _ => CompareFunction::Less,
    }
}

/// Depth comparison asked for by `other_mode_l`: `None` when comparison is off.
pub fn translate_depth_compare(mode_l: u32) -> (r: Option<CompareFunction>)
    ensures
        r == depth_compare_of(mode_l),
{
    if is_bit_set(mode_l, Z_CMP) {
        Some(depth_compare_for_zmode(zmode(mode_l)))
    } else {
        None
    }
}

/// Whether `other_mode_l` asks for a polygon offset.
pub fn translate_polygon_offset(mode_l: u32) -> (r: bool)
    ensures
        r == polygon_offset_of(mode_l),
{
    zmode(mode_l) == ZMODE_DEC
}

/// Whether `other_mode_l` asks for depth writes.
pub fn translate_depth_write(mode_l: u32) -> (r: bool)
    ensures
        r == depth_write_of(mode_l),
{
    is_bit_set(mode_l, Z_UPD)
}

/// Destination factor for selector `param`, by an explicit table.
pub fn translate_blend_param_b(param: u32, src: BlendFactor) -> (r: BlendFactor)
    ensures
        r == blend_dst_factor_spec(param, src),
{
    match param {
        G_BL_1MA => match src {
            BlendFactor::One => BlendFactor::Zero,
            _ => BlendFactor::OneMinusSrcAlpha,
        },
        G_BL_A_MEM => BlendFactor::DstAlpha,
        G_BL_1 => BlendFactor::One,
        _ => BlendFactor::Zero,
    }
}

/// The blend state asked for by `other_mode_l`.
pub fn translate_blend_mode(mode_l: u32) -> (r: BlendState)
    ensures
        r == blend_state_of(mode_l),
{
    let force = is_bit_set(mode_l, FORCE_BL);
    let dst_color = get_field2(mode_l, M_2);
    if force && dst_color == G_BL_CLR_MEM {
        let src_alpha = get_field2(mode_l, A_2);
        let src = if src_alpha == G_BL_A_ZERO {
            BlendFactor::Zero
        } else if is_bit_set(mode_l, ALPHA_CVG_SEL) && !is_bit_set(mode_l, CVG_X_ALPHA) {
            BlendFactor::One
        } else {
            BlendFactor::SrcAlpha
        };
        let dst = translate_blend_param_b(get_field2(mode_l, B_2), src);
        let c = BlendComponent { src_factor: src, dst_factor: dst };
        BlendState { color: c, alpha: c }
    } else {
        let c = BlendComponent { src_factor: BlendFactor::One, dst_factor: BlendFactor::Zero };
        BlendState { color: c, alpha: c }
    }
}

/// The depth table: with depth comparison off there is no comparison; with
/// it on, opaque, interpenetrating and translucent surfaces compare with
/// "less" and decals with "less or equal". Polygon offset is on exactly for
/// decals, whether comparison is on or not.
pub proof fn lemma_zmode_table(z: u32, z_cmp: bool)
    requires
        z < 4,
    ensures
        ({
            let mode_l = (z << ZMODE) | (if z_cmp { 1u32 << Z_CMP } else { 0u32 });
            &&& zmode_of(mode_l) == z
            &&& !z_cmp ==> depth_compare_of(mode_l) is None
            &&& z_cmp && z == ZMODE_OPA ==> depth_compare_of(mode_l) == Some(CompareFunction::Less)
            &&& z_cmp && z == ZMODE_INTER ==> depth_compare_of(mode_l) == Some(CompareFunction::Less)
            &&& z_cmp && z == ZMODE_XLU ==> depth_compare_of(mode_l) == Some(CompareFunction::Less)
            &&& z_cmp && z == ZMODE_DEC ==> depth_compare_of(mode_l) == Some(
                CompareFunction::LessEqual,
            )
            &&& polygon_offset_of(mode_l) == (z == ZMODE_DEC)
        }),
{
    let mode_l = (z << ZMODE) | (if z_cmp { 1u32 << Z_CMP } else { 0u32 });
    assert(1u32 << 4u32 == 16) by (bit_vector);
    let c: u32 = if z_cmp { 1u32 << 4u32 } else { 0u32 };
    assert(c == 0 || c == 16);
    assert(mode_l == (z << 10u32) | c);
    assert(((((z << 10u32) | c) >> 10u32) & 3) == z) by (bit_vector)
        requires
            z < 4,
            c == 0 || c == 16,
    ;
    assert((((z << 10u32) | c) & 16 != 0) == (c == 16)) by (bit_vector)
        requires
            z < 4,
            c == 0 || c == 16,
    ;
}

} // verus!
