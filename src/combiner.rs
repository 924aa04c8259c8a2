//! Color-combiner translation: from the two four-input combine expressions to a
//! shader id with canonical input slots, and the cache of generated combiners.
use vstd::prelude::*;

verus! {

/// Color operand: the constant zero.
pub const CCMUX_ZERO: u8 = 0;
/// Color operand: texel of texture 0.
pub const CCMUX_TEXEL0: u8 = 1;
/// Color operand: texel of texture 1.
pub const CCMUX_TEXEL1: u8 = 2;
/// Color operand: primitive color.
pub const CCMUX_PRIMITIVE: u8 = 3;
/// Color operand: shade (vertex) color.
pub const CCMUX_SHADE: u8 = 4;
/// Color operand: environment color.
pub const CCMUX_ENVIRONMENT: u8 = 5;
/// Color operand: alpha of texture 0's texel.
pub const CCMUX_TEXEL0_ALPHA: u8 = 6;
/// Color operand: level-of-detail fraction.
pub const CCMUX_LOD_FRACTION: u8 = 7;

/// Alpha operand: the constant zero.
pub const ACMUX_ZERO: u8 = 0;
/// Alpha operand: texel of texture 0.
pub const ACMUX_TEXEL0: u8 = 1;
/// Alpha operand: texel of texture 1.
pub const ACMUX_TEXEL1: u8 = 2;
/// Alpha operand: primitive alpha.
pub const ACMUX_PRIMITIVE: u8 = 3;
/// Alpha operand: shade alpha.
pub const ACMUX_SHADE: u8 = 4;
/// Alpha operand: environment alpha.
pub const ACMUX_ENVIRONMENT: u8 = 5;
/// Alpha operand: the constant one.
pub const ACMUX_ONE: u8 = 6;

/// Shader source: zero.
pub const SHADER_ZERO: u8 = 0;
/// Shader source: the first canonical input slot (slots are 1 to 4).
pub const SHADER_INPUT_1: u8 = 1;
/// Shader source: texel of texture 0.
pub const SHADER_TEXEL0: u8 = 5;
/// Shader source: alpha of texture 0's texel.
pub const SHADER_TEXEL0A: u8 = 6;
/// Shader source: texel of texture 1.
pub const SHADER_TEXEL1: u8 = 7;

/// The combine expressions of one cycle: four color operands and four alpha
/// operands, each a three-bit code.
#[derive(Clone, Copy, Debug, PartialEq, Eq)]
pub struct CombineParams {
    pub c0: [u8; 4],
    pub a0: [u8; 4],
}

/// Three-bit field `i` (counted from bit 0) of `w`.
pub open spec fn field3(w: u32, i: u32) -> u8 {
    ((w >> (3 * i)) & 7) as u8
}

/// Combine parameters that a packed 24-bit combine word holds: color operands
/// in bits 0 to 11, alpha operands in bits 12 to 23, three bits each.
pub open spec fn params_of(w: u32) -> (Seq<u8>, Seq<u8>) {
    (
        seq![field3(w, 0), field3(w, 1), field3(w, 2), field3(w, 3)],
        seq![field3(w, 4), field3(w, 5), field3(w, 6), field3(w, 7)],
    )
}

/// The packed combine word of four color and four alpha operands.
pub open spec fn pack_params(c: Seq<u8>, a: Seq<u8>) -> u32 {
    (c[0] as u32 & 7) | ((c[1] as u32 & 7) << 3) | ((c[2] as u32 & 7) << 6) | ((c[3] as u32
        & 7) << 9) | ((a[0] as u32 & 7) << 12) | ((a[1] as u32 & 7) << 15) | ((a[2] as u32 & 7)
        << 18) | ((a[3] as u32 & 7) << 21)
}

fn get_field3(w: u32, i: u32) -> (r: u8)
    requires
        i < 8,
    ensures
        r == field3(w, i),
        r < 8,
{
    assert(((w >> (3 * i)) & 7) < 8) by (bit_vector);
    ((w >> (3 * i)) & 7) as u8
}

impl CombineParams {
    /// All operands zero.
    pub fn zero() -> (r: Self)
        ensures
            r.c0@ == seq![0u8, 0, 0, 0],
            r.a0@ == seq![0u8, 0, 0, 0],
    {
        let r = CombineParams { c0: [0u8; 4], a0: [0u8; 4] };
        assert(r.c0@ =~= seq![0u8, 0, 0, 0]);
        assert(r.a0@ =~= seq![0u8, 0, 0, 0]);
        r
    }

    /// Unpacks a combine word; the top eight bits are not part of it.
    pub fn from_u32(w: u32) -> (r: Self)
        ensures
            (r.c0@, r.a0@) == params_of(w),
    {
        let r = CombineParams {
            c0: [get_field3(w, 0), get_field3(w, 1), get_field3(w, 2), get_field3(w, 3)],
            a0: [get_field3(w, 4), get_field3(w, 5), get_field3(w, 6), get_field3(w, 7)],
        };
        assert(r.c0@ =~= params_of(w).0);
        assert(r.a0@ =~= params_of(w).1);
        r
    }

    /// Packs the operands into a combine word.
    pub fn to_u32(&self) -> (r: u32)
        ensures
            r == pack_params(self.c0@, self.a0@),
    {
        (self.c0[0] as u32 & 7) | ((self.c0[1] as u32 & 7) << 3) | ((self.c0[2] as u32 & 7) << 6)
            | ((self.c0[3] as u32 & 7) << 9) | ((self.a0[0] as u32 & 7) << 12) | ((self.a0[1] as u32
            & 7) << 15) | ((self.a0[2] as u32 & 7) << 18) | ((self.a0[3] as u32 & 7) << 21)
    }

    /// Whether the color or alpha expression reads texture 1.
    pub fn uses_texture1(&self) -> (r: bool)
        ensures
            r == (self.c0@.contains(CCMUX_TEXEL1) || self.a0@.contains(ACMUX_TEXEL1)),
    {
        let mut i: usize = 0;
        while i < 4
            invariant
                i <= 4,
                forall|j: int| 0 <= j < i ==> self.c0@[j] != CCMUX_TEXEL1 && self.a0@[j] != ACMUX_TEXEL1,
            decreases 4 - i,
        {
            if self.c0[i] == CCMUX_TEXEL1 || self.a0[i] == ACMUX_TEXEL1 {
                return true;
            }
            i += 1;
        }
        false
    }
}

/// Whether `op` takes a canonical input slot in the given pass.
pub open spec fn is_slot_input(alpha: bool, op: u8) -> bool {
    if alpha {
        op == ACMUX_PRIMITIVE || op == ACMUX_SHADE || op == ACMUX_ENVIRONMENT
    } else {
        op == CCMUX_PRIMITIVE || op == CCMUX_SHADE || op == CCMUX_ENVIRONMENT || op
            == CCMUX_LOD_FRACTION
    }
}

/// The fixed shader source of an operand that takes no slot (zero when none).
pub open spec fn fixed_source(alpha: bool, op: u8) -> u8 {
    if op == CCMUX_TEXEL0 {
        SHADER_TEXEL0
    } else if op == CCMUX_TEXEL1 {
        SHADER_TEXEL1
    } else if !alpha && op == CCMUX_TEXEL0_ALPHA {
        SHADER_TEXEL0A
    } else {
        SHADER_ZERO
    }
}

/// The slot inputs among the first `n` operands, each once, in first-seen order.
pub open spec fn seen_inputs(alpha: bool, ops: Seq<u8>, n: nat) -> Seq<u8>
    decreases n,
{
    if n == 0 {
        seq![]
    } else {
        let s = seen_inputs(alpha, ops, (n - 1) as nat);
        let op = ops[n - 1];
        if is_slot_input(alpha, op) && !s.contains(op) {
            s.push(op)
        } else {
            s
        }
    }
}

/// Shader source of operand `i`: its fixed source, or its canonical slot
/// (one plus its position among the inputs in first-seen order).
pub open spec fn source_of(alpha: bool, ops: Seq<u8>, i: int) -> u8 {
    let op = ops[i];
    if is_slot_input(alpha, op) {
        (seen_inputs(alpha, ops, (i + 1) as nat).index_of(op) + 1) as u8
    } else {
        fixed_source(alpha, op)
    }
}

/// Shader sources of the four operands of a pass.
pub open spec fn pass_sources(alpha: bool, ops: Seq<u8>) -> Seq<u8> {
    seq![
        source_of(alpha, ops, 0),
        source_of(alpha, ops, 1),
        source_of(alpha, ops, 2),
        source_of(alpha, ops, 3),
    ]
}

/// Input slot mapping of a pass: entry `k` is the operand in slot `k + 1`, or
/// zero where the slot is unused.
pub open spec fn pass_inputs(alpha: bool, ops: Seq<u8>) -> Seq<u8> {
    let s = seen_inputs(alpha, ops, 4);
    Seq::new(4, |k: int| if k < s.len() { s[k] } else { 0u8 })
}

/// The shader id: the top byte of the combine id, then the color sources in
/// bits 0 to 11 and the alpha sources in bits 12 to 23, three bits each.
pub open spec fn shader_id_of(cc_id: u32, cs: Seq<u8>, as_: Seq<u8>) -> u32 {
    ((cc_id >> 24u32) << 24u32) | (cs[0] as u32) | ((cs[1] as u32) << 3u32) | ((cs[2] as u32)
        << 6u32) | ((cs[3] as u32) << 9u32) | ((as_[0] as u32) << 12u32) | ((as_[1] as u32)
        << 15u32) | ((as_[2] as u32) << 18u32) | ((as_[3] as u32) << 21u32)
}

proof fn lemma_seen_inputs(alpha: bool, ops: Seq<u8>, n: nat)
    ensures
        seen_inputs(alpha, ops, n).no_duplicates(),
        seen_inputs(alpha, ops, n).len() <= n,
    decreases n,
{
    if n > 0 {
        lemma_seen_inputs(alpha, ops, (n - 1) as nat);
    }
}

/// Position of `op` in `seen`, or `seen.len()` when it is not there.
fn find_input(seen: &Vec<u8>, op: u8) -> (r: usize)
    ensures
        r <= seen@.len(),
        r < seen@.len() ==> seen@[r as int] == op,
        r == seen@.len() ==> !seen@.contains(op),
{
    let mut j: usize = 0;
    while j < seen.len()
        invariant
            j <= seen@.len(),
            forall|k: int| 0 <= k < j ==> seen@[k] != op,
        decreases seen@.len() - j,
    {
        if seen[j] == op {
            return j;
        }
        j += 1;
    }
    j
}

fn source_is_input(alpha: bool, op: u8) -> (r: bool)
    ensures
        r == is_slot_input(alpha, op),
{
    if alpha {
        op == ACMUX_PRIMITIVE || op == ACMUX_SHADE || op == ACMUX_ENVIRONMENT
    } else {
        op == CCMUX_PRIMITIVE || op == CCMUX_SHADE || op == CCMUX_ENVIRONMENT || op
            == CCMUX_LOD_FRACTION
    }
}

fn fixed_source_of(alpha: bool, op: u8) -> (r: u8)
    ensures
        r == fixed_source(alpha, op),
{
    if op == CCMUX_TEXEL0 {
        SHADER_TEXEL0
    } else if op == CCMUX_TEXEL1 {
        SHADER_TEXEL1
    } else if !alpha && op == CCMUX_TEXEL0_ALPHA {
        SHADER_TEXEL0A
    } else {
        SHADER_ZERO
    }
}

/// Translates one pass: the shader source of each operand, and the operand
/// that each canonical input slot stands for.
pub fn translate_pass(alpha: bool, ops: &[u8; 4]) -> (r: ([u8; 4], [u8; 4]))
    ensures
        r.0@ == pass_sources(alpha, ops@),
        r.1@ == pass_inputs(alpha, ops@),
{
    let mut seen: Vec<u8> = Vec::new();
    let mut sources: Vec<u8> = Vec::new();
    let mut i: usize = 0;
    while i < 4
        invariant
            i <= 4,
            ops@.len() == 4,
            seen@ == seen_inputs(alpha, ops@, i as nat),
            sources@.len() == i,
            forall|j: int| 0 <= j < i ==> sources@[j] == source_of(alpha, ops@, j),
        decreases 4 - i,
    {
        proof {
            lemma_seen_inputs(alpha, ops@, i as nat);
            lemma_seen_inputs(alpha, ops@, (i + 1) as nat);
        }
        let op = ops[i];
        let ghost next = seen_inputs(alpha, ops@, (i + 1) as nat);
        if source_is_input(alpha, op) {
            let pos = find_input(&seen, op);
            if pos == seen.len() {
                seen.push(op);
            }
            assert(seen@ == next);
            assert(seen@[pos as int] == op);
            assert(seen@.contains(op));
            assert(seen@.index_of(op) == pos as int) by {
                let k = seen@.index_of(op);
                assert(0 <= k < seen@.len() && seen@[k] == op);
                assert(seen@.no_duplicates());
            }
            sources.push((pos + 1) as u8);
        } else {
            sources.push(fixed_source_of(alpha, op));
        }
        i += 1;
    }
    proof {
        lemma_seen_inputs(alpha, ops@, 4);
    }
    let n = seen.len();
    let i0 = if n > 0 { seen[0] } else { 0u8 };
    let i1 = if n > 1 { seen[1] } else { 0u8 };
    let i2 = if n > 2 { seen[2] } else { 0u8 };
    let i3 = if n > 3 { seen[3] } else { 0u8 };
    let r = ([sources[0], sources[1], sources[2], sources[3]], [i0, i1, i2, i3]);
    assert(r.0@ =~= pass_sources(alpha, ops@));
    assert(r.1@ =~= pass_inputs(alpha, ops@));
    r
}

/// A generated combiner: the shader it uses and, per pass, the operand that
/// each canonical input slot stands for.
#[derive(Clone, Copy, Debug, PartialEq, Eq)]
pub struct ColorCombiner {
    pub cc_id: u32,
    pub shader_id: u32,
    pub shader_program: u32,
    pub color_inputs: [u8; 4],
    pub alpha_inputs: [u8; 4],
}

/// The shader id for combine id `cc_id` over the operands `params`.
pub open spec fn shader_id_for(cc_id: u32, params: CombineParams) -> u32 {
    shader_id_of(cc_id, pass_sources(false, params.c0@), pass_sources(true, params.a0@))
}

/// Computes the shader id and slot mappings for combine id `cc_id` over the
/// operands `params`, with `program` as its shader program.
pub fn generate_combiner(cc_id: u32, params: &CombineParams, program: u32) -> (r: ColorCombiner)
    ensures
        r.cc_id == cc_id,
        r.shader_id == shader_id_for(cc_id, *params),
        r.shader_program == program,
        r.color_inputs@ == pass_inputs(false, params.c0@),
        r.alpha_inputs@ == pass_inputs(true, params.a0@),
{
    let (cs, ci) = translate_pass(false, &params.c0);
    let (as_, ai) = translate_pass(true, &params.a0);
    let shader_id = ((cc_id >> 24u32) << 24u32) | (cs[0] as u32) | ((cs[1] as u32) << 3u32) | ((
    cs[2] as u32) << 6u32) | ((cs[3] as u32) << 9u32) | ((as_[0] as u32) << 12u32) | ((as_[1] as u32)
        << 15u32) | ((as_[2] as u32) << 18u32) | ((as_[3] as u32) << 21u32);
    ColorCombiner { cc_id, shader_id, shader_program: program, color_inputs: ci, alpha_inputs: ai }
}

/// The combiner cached under `cc_id` in `entries`: the last entry with that id.
pub open spec fn lookup_entry(entries: Seq<ColorCombiner>, cc_id: u32) -> Option<ColorCombiner>
    decreases entries.len(),
{
    if entries.len() == 0 {
        None
    } else if entries.last().cc_id == cc_id {
        Some(entries.last())
    } else {
        lookup_entry(entries.drop_last(), cc_id)
    }
}

/// Cache of generated combiners, keyed by combine id. Entries are never evicted.
pub struct ColorCombinerManager {
    pub combiners: Vec<ColorCombiner>,
    pub current_combiner: Option<u32>,
}

impl ColorCombinerManager {
    /// The cache as a map from combine id to combiner.
    pub open spec fn view(&self) -> Map<u32, ColorCombiner> {
        Map::new(
            |k: u32| lookup_entry(self.combiners@, k) is Some,
            |k: u32| lookup_entry(self.combiners@, k)->Some_0,
        )
    }

    /// An empty cache.
    pub fn new() -> (r: Self)
        ensures
            r.view() == Map::<u32, ColorCombiner>::empty(),
            r.current_combiner is None,
    {
        let r = ColorCombinerManager { combiners: Vec::new(), current_combiner: None };
        assert(r.view() =~= Map::<u32, ColorCombiner>::empty());
        r
    }

    /// The combiner cached under `cc_id`, if any.
    pub fn lookup_color_combiner(&self, cc_id: u32) -> (r: Option<ColorCombiner>)
        ensures
            r == (if self.view().contains_key(cc_id) {
                Some(self.view()[cc_id])
            } else {
                None
            }),
    {
        let mut i = self.combiners.len();
        assert(self.combiners@.subrange(0, i as int) =~= self.combiners@);
        while i > 0
            invariant
                i <= self.combiners@.len(),
                lookup_entry(self.combiners@, cc_id) == lookup_entry(
                    self.combiners@.subrange(0, i as int),
                    cc_id,
                ),
            decreases i,
        {
            let ghost s = self.combiners@.subrange(0, i as int);
            assert(s.drop_last() =~= self.combiners@.subrange(0, i - 1));
            if self.combiners[i - 1].cc_id == cc_id {
                return Some(self.combiners[i - 1]);
            }
            i -= 1;
        }
        assert(self.combiners@.subrange(0, 0) =~= Seq::<ColorCombiner>::empty());
        None
    }

    /// Caches `combiner` under its combine id, replacing any earlier entry.
    pub fn insert(&mut self, combiner: ColorCombiner)
        ensures
            final(self).view() == old(self).view().insert(combiner.cc_id, combiner),
            final(self).current_combiner == old(self).current_combiner,
    {
        let ghost before = self.combiners@;
        self.combiners.push(combiner);
        assert(self.combiners@.drop_last() =~= before);
        assert(self.view() =~= old(self).view().insert(combiner.cc_id, combiner));
    }
}

} // verus!
