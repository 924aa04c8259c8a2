//! The orchestrator: walks a display list, dispatching each command and
//! following nested display-list calls.
use vstd::prelude::*;
use crate::gbi::{command_dispatched, step_result, GBIResult, GfxOp, COMMAND_SIZE, GBI};
use crate::rdp::{frame_started, RDP};
use crate::rsp::RSP;

verus! {

/// Deepest nesting of display-list calls that is followed.
pub const MAX_DL_DEPTH: usize = 32;

/// Why a display list could not be walked to its end.
#[derive(Clone, Copy, Debug, PartialEq, Eq, Structural)]
pub enum RcpError {
    /// A command at this address does not lie wholly in memory.
    OutOfBounds(usize),
    /// A call to the display list at this address nests too deep.
    TooDeep(usize),
    /// The unknown opcode at this address is one more than the limit allows.
    TooManyUnknownOpcodes(usize),
}

/// Where walking the display list at `pc`, at call depth `depth`, ends: the
/// address of the terminator that ends it and the number of unknown opcodes
/// met so far (counted only under a limit), or the fault that stops it. A
/// call walks the called list first, then goes on after the call. Unknown
/// opcodes are skipped; under `limit`, the one that would exceed it stops
/// the walk.
pub open spec fn walk(
    table: Seq<Option<GfxOp>>,
    mem: Seq<u8>,
    pc: int,
    depth: nat,
    limit: Option<usize>,
    seen: nat,
) -> Result<(int, nat), RcpError>
    decreases MAX_DL_DEPTH - depth, mem.len() - pc,
{
    if depth >= MAX_DL_DEPTH {
        Err(RcpError::TooDeep(pc as usize))
    } else if pc < 0 || pc + COMMAND_SIZE > mem.len() {
        Err(RcpError::OutOfBounds(pc as usize))
    } else {
        match step_result(table, mem, pc) {
            GBIResult::Return => Ok((pc, seen)),
            GBIResult::Recurse(target) => match walk(table, mem, target as int, depth + 1, limit, seen) {
                Ok((_, after)) => walk(table, mem, pc + COMMAND_SIZE, depth, limit, after),
                Err(e) => Err(e),
            },
            GBIResult::Unknown(_) => match limit {
                None => walk(table, mem, pc + COMMAND_SIZE, depth, limit, seen),
                Some(l) => if seen + 1 > l {
                    Err(RcpError::TooManyUnknownOpcodes(pc as usize))
                } else {
                    walk(table, mem, pc + COMMAND_SIZE, depth, limit, seen + 1)
                },
            },
            GBIResult::Continue => walk(table, mem, pc + COMMAND_SIZE, depth, limit, seen),
        }
    }
}

/// The terminator address of a walk, or its fault.
pub open spec fn walk_end(w: Result<(int, nat), RcpError>) -> Result<int, RcpError> {
    match w {
        Ok((pc, _)) => Ok(pc),
        Err(e) => Err(e),
    }
}

/// The addresses of the commands a walk dispatches, in order: each command
/// up to the terminator, with each called list walked in place of its call.
/// A fault stops the trace: the command of an out-of-bounds or too deep
/// address is not dispatched; the unknown opcode past the limit is.
pub open spec fn walk_trace(
    table: Seq<Option<GfxOp>>,
    mem: Seq<u8>,
    pc: int,
    depth: nat,
    limit: Option<usize>,
    seen: nat,
) -> Seq<int>
    decreases MAX_DL_DEPTH - depth, mem.len() - pc,
{
    if depth >= MAX_DL_DEPTH || pc < 0 || pc + COMMAND_SIZE > mem.len() {
        seq![]
    } else {
        match step_result(table, mem, pc) {
            GBIResult::Return => seq![pc],
            GBIResult::Recurse(target) => seq![pc] + walk_trace(table, mem, target as int, depth + 1, limit, seen)
                + match walk(table, mem, target as int, depth + 1, limit, seen) {
                Ok((_, after)) => walk_trace(table, mem, pc + COMMAND_SIZE, depth, limit, after),
                Err(_) => seq![],
            },
            GBIResult::Unknown(_) => seq![pc] + match limit {
                None => walk_trace(table, mem, pc + COMMAND_SIZE, depth, limit, seen),
                Some(l) => if seen + 1 > l {
                    seq![]
                } else {
                    walk_trace(table, mem, pc + COMMAND_SIZE, depth, limit, seen + 1)
                },
            },
            GBIResult::Continue => seq![pc] + walk_trace(table, mem, pc + COMMAND_SIZE, depth, limit, seen),
        }
    }
}

/// `states` are the stages before and after each command of `trace`: each
/// step is exactly the effect of dispatching that command.
pub open spec fn steps_chain(
    table: Seq<Option<GfxOp>>,
    mem: Seq<u8>,
    trace: Seq<int>,
    states: Seq<(RDP, RSP)>,
) -> bool {
    &&& states.len() == trace.len() + 1
    &&& forall|i: int|
        0 <= i < trace.len() ==> command_dispatched(
            table,
            mem,
            #[trigger] trace[i],
            &states[i].0,
            &states[i].1,
            &states[i + 1].0,
            &states[i + 1].1,
        )
}

/// Dispatching the commands of `trace` in order takes the stages from
/// `a`/`ra` to `b`/`rb`.
pub open spec fn runs(
    table: Seq<Option<GfxOp>>,
    mem: Seq<u8>,
    trace: Seq<int>,
    a: &RDP,
    ra: &RSP,
    b: &RDP,
    rb: &RSP,
) -> bool {
    exists|states: Seq<(RDP, RSP)>| #![trigger steps_chain(table, mem, trace, states)]
        steps_chain(table, mem, trace, states) && states[0] == (*a, *ra) && states.last() == (*b, *rb)
}

proof fn lemma_chain_append(
    table: Seq<Option<GfxOp>>,
    mem: Seq<u8>,
    t1: Seq<int>,
    s1: Seq<(RDP, RSP)>,
    t2: Seq<int>,
    s2: Seq<(RDP, RSP)>,
)
    requires
        steps_chain(table, mem, t1, s1),
        steps_chain(table, mem, t2, s2),
        s1.last() == s2[0],
    ensures
        steps_chain(table, mem, t1 + t2, s1 + s2.subrange(1, s2.len() as int)),
        (s1 + s2.subrange(1, s2.len() as int))[0] == s1[0],
        (s1 + s2.subrange(1, s2.len() as int)).last() == s2.last(),
{
    let t = t1 + t2;
    let s = s1 + s2.subrange(1, s2.len() as int);
    assert forall|i: int| 0 <= i < t.len() implies command_dispatched(
        table,
        mem,
        #[trigger] t[i],
        &s[i].0,
        &s[i].1,
        &s[i + 1].0,
        &s[i + 1].1,
    ) by {
        if i < t1.len() {
            assert(t[i] == t1[i]);
            assert(s[i] == s1[i]);
            assert(s[i + 1] == s1[i + 1]);
        } else {
            let j = i - t1.len();
            assert(t[i] == t2[j]);
            if j == 0 {
                assert(s[i] == s1.last());
            } else {
                assert(s[i] == s2[j]);
            }
            assert(s[i + 1] == s2[j + 1]);
        }
    }
    if s2.len() == 1 {
        assert(s =~= s1);
    }
}

proof fn lemma_chain_push(
    table: Seq<Option<GfxOp>>,
    mem: Seq<u8>,
    t: Seq<int>,
    s: Seq<(RDP, RSP)>,
    pc: int,
    next: (RDP, RSP),
)
    requires
        steps_chain(table, mem, t, s),
        command_dispatched(table, mem, pc, &s.last().0, &s.last().1, &next.0, &next.1),
    ensures
        steps_chain(table, mem, t.push(pc), s.push(next)),
{
    let t2 = t.push(pc);
    let s2 = s.push(next);
    assert forall|i: int| 0 <= i < t2.len() implies command_dispatched(
        table,
        mem,
        #[trigger] t2[i],
        &s2[i].0,
        &s2[i].1,
        &s2[i + 1].0,
        &s2[i + 1].1,
    ) by {
        if i < t.len() {
            assert(t2[i] == t[i]);
        } else {
            assert(s2[i] == s.last());
        }
    }
}

/// The interpreter: dispatcher, rasterizer stage and geometry stage.
pub struct RCP {
    pub gbi: GBI,
    pub rdp: RDP,
    pub rsp: RSP,
    /// How many unknown opcodes one walk skips before it fails; `None`
    /// skips them all.
    pub unknown_opcode_limit: Option<usize>,
}

impl RCP {
    pub open spec fn wf(&self) -> bool {
        self.gbi.wf() && self.rdp.wf() && self.rsp.wf()
    }

    /// An interpreter with the default command table.
    pub fn new() -> (r: Self)
        ensures
            r.wf(),
            r.gbi.gbi_opcode_table@[0xdf] == Some(GfxOp::EndDisplayList),
            r.gbi.gbi_opcode_table@[0xde] == Some(GfxOp::DisplayList),
            r.rdp.output.commands@.len() == 0,
            r.rsp.geometry_mode == 0,
            r.unknown_opcode_limit is None,
    {
        let mut gbi = GBI::new();
        gbi.setup();
        RCP { gbi, rdp: RDP::new(), rsp: RSP::new(), unknown_opcode_limit: None }
    }

    /// Sets how many unknown opcodes one walk skips before it fails.
    pub fn set_unknown_opcode_limit(&mut self, limit: Option<usize>)
        ensures
            *final(self) == (RCP { unknown_opcode_limit: limit, ..*old(self) }),
    {
        self.unknown_opcode_limit = limit;
    }

    /// Starts a new frame on both stages.
    pub fn reset(&mut self)
        requires
            old(self).wf(),
        ensures
            final(self).wf(),
            final(self).gbi == old(self).gbi,
            final(self).unknown_opcode_limit == old(self).unknown_opcode_limit,
            final(self).rdp.output.commands@.len() == 0,
            final(self).rdp.output.vertex_batches@.len() == 0,
            final(self).rdp.output.pixel_data@.len() == 0,
            final(self).rdp.errors@.len() == 0,
            final(self).rdp.buf_vbo_num_tris == 0,
            final(self).rdp.rendering_state == old(self).rdp.rendering_state,
            final(self).rdp.color_combiner_manager == old(self).rdp.color_combiner_manager,
            final(self).rdp.texture_manager == old(self).rdp.texture_manager,
            final(self).rsp.geometry_mode == 0,
            final(self).rsp.vertex_table == old(self).rsp.vertex_table,
            frame_started(&old(self).rdp, &final(self).rdp),
            final(self).rsp == (RSP { geometry_mode: 0, ..old(self).rsp }),
    {
        self.rdp.reset();
        self.rsp.reset();
    }

    /// Interprets the display list at `commands` in `mem`, after a reset,
    /// and submits the last batch. Returns the address of the terminator
    /// that ends the list, or the fault that stopped the walk.
    pub fn run(&mut self, mem: &[u8], commands: usize) -> (r: Result<usize, RcpError>)
        requires
            old(self).wf(),
        ensures
            final(self).wf(),
            final(self).gbi == old(self).gbi,
            final(self).unknown_opcode_limit == old(self).unknown_opcode_limit,
            match r {
                Ok(pc) => walk_end(
                    walk(old(self).gbi.gbi_opcode_table@, mem@, commands as int, 0, old(self).unknown_opcode_limit, 0),
                ) == Ok::<int, RcpError>(pc as int),
                Err(e) => walk_end(
                    walk(old(self).gbi.gbi_opcode_table@, mem@, commands as int, 0, old(self).unknown_opcode_limit, 0),
                ) == Err::<int, RcpError>(e),
            },
            final(self).rdp.buf_vbo_num_tris == 0,
            exists|r0: RDP, m: RDP| #![trigger frame_started(&old(self).rdp, &r0), RDP::flushed_output(&m, &final(self).rdp)]
                frame_started(&old(self).rdp, &r0) && runs(
                    old(self).gbi.gbi_opcode_table@,
                    mem@,
                    walk_trace(old(self).gbi.gbi_opcode_table@, mem@, commands as int, 0, old(self).unknown_opcode_limit, 0),
                    &r0,
                    &RSP { geometry_mode: 0, ..old(self).rsp },
                    &m,
                    &final(self).rsp,
                ) && RDP::same_but_batch(&m, &final(self).rdp) && RDP::flushed_output(&m, &final(self).rdp),
    {
        self.reset();
        let ghost r0 = self.rdp;
        let ghost rs0 = self.rsp;
        let r = match self.run_dl(mem, commands, 0, 0) {
            Ok((pc, _)) => Ok(pc),
            Err(e) => Err(e),
        };
        let ghost m = self.rdp;
        self.rdp.flush();
        assert(rs0 == (RSP { geometry_mode: 0, ..old(self).rsp }));
        assert(frame_started(&old(self).rdp, &r0));
        assert(RDP::flushed_output(&m, &self.rdp));
        r
    }

    /// Interprets the display list at `commands` at call depth `depth`, with
    /// `seen` unknown opcodes met so far. Returns the terminator address and
    /// the unknown opcodes met by then.
    pub fn run_dl(&mut self, mem: &[u8], commands: usize, depth: usize, seen_before: usize) -> (r: Result<
        (usize, usize),
        RcpError,
    >)
        requires
            old(self).wf(),
            old(self).unknown_opcode_limit matches Some(l) ==> seen_before <= l,
        ensures
            final(self).wf(),
            final(self).gbi == old(self).gbi,
            final(self).unknown_opcode_limit == old(self).unknown_opcode_limit,
            r matches Ok((_, after)) ==> (final(self).unknown_opcode_limit matches Some(l) ==> after <= l),
            match r {
                Ok((pc, after)) => walk(
                    old(self).gbi.gbi_opcode_table@,
                    mem@,
                    commands as int,
                    depth as nat,
                    old(self).unknown_opcode_limit,
                    seen_before as nat,
                ) == Ok::<(int, nat), RcpError>((pc as int, after as nat)),
                Err(e) => walk(
                    old(self).gbi.gbi_opcode_table@,
                    mem@,
                    commands as int,
                    depth as nat,
                    old(self).unknown_opcode_limit,
                    seen_before as nat,
                ) == Err::<(int, nat), RcpError>(e),
            },
            runs(
                old(self).gbi.gbi_opcode_table@,
                mem@,
                walk_trace(
                    old(self).gbi.gbi_opcode_table@,
                    mem@,
                    commands as int,
                    depth as nat,
                    old(self).unknown_opcode_limit,
                    seen_before as nat,
                ),
                &old(self).rdp,
                &old(self).rsp,
                &final(self).rdp,
                &final(self).rsp,
            ),
        decreases MAX_DL_DEPTH - depth,
    {
        let ghost table = self.gbi.gbi_opcode_table@;
        let limit = self.unknown_opcode_limit;
        let ghost mut tr: Seq<int> = seq![];
        let ghost mut st: Seq<(RDP, RSP)> = seq![(self.rdp, self.rsp)];
        if depth >= MAX_DL_DEPTH {
            assert(steps_chain(table, mem@, tr, st));
            return Err(RcpError::TooDeep(commands));
        }
        let mut pc = commands;
        let mut seen = seen_before;
        loop
            invariant
                self.wf(),
                self.gbi.gbi_opcode_table@ == table,
                self.gbi == old(self).gbi,
                self.unknown_opcode_limit == limit,
                limit == old(self).unknown_opcode_limit,
                limit matches Some(l) ==> seen <= l,
                depth < MAX_DL_DEPTH,
                walk(table, mem@, commands as int, depth as nat, limit, seen_before as nat) == walk(
                    table,
                    mem@,
                    pc as int,
                    depth as nat,
                    limit,
                    seen as nat,
                ),
                steps_chain(table, mem@, tr, st),
                st[0] == (old(self).rdp, old(self).rsp),
                st.last() == (self.rdp, self.rsp),
                walk_trace(table, mem@, commands as int, depth as nat, limit, seen_before as nat) == tr
                    + walk_trace(table, mem@, pc as int, depth as nat, limit, seen as nat),
            decreases mem@.len() - pc,
        {
            if pc > mem.len() || mem.len() - pc < COMMAND_SIZE {
                assert(tr + seq![] =~= tr);
                return Err(RcpError::OutOfBounds(pc));
            }
            let ghost tr0 = tr;
            let res = self.gbi.handle_command(&mut self.rdp, &mut self.rsp, mem, pc);
            proof {
                let next = (self.rdp, self.rsp);
                lemma_chain_push(table, mem@, tr, st, pc as int, next);
                tr = tr.push(pc as int);
                st = st.push(next);
            }
            match res {
                GBIResult::Return => {
                    assert(tr0 + seq![pc as int] =~= tr);
                    return Ok((pc, seen));
                },
                GBIResult::Recurse(target) => {
                    let ghost pre = (self.rdp, self.rsp);
                    let ghost t2 = walk_trace(table, mem@, target as int, (depth + 1) as nat, limit, seen as nat);
                    let sub = self.run_dl(mem, target, depth + 1, seen);
                    proof {
                        let post = (self.rdp, self.rsp);
                        let s2 = choose|s2: Seq<(RDP, RSP)>|
                            steps_chain(table, mem@, t2, s2) && s2[0] == pre && s2.last() == post;
                        lemma_chain_append(table, mem@, tr, st, t2, s2);
                        tr = tr + t2;
                        st = st + s2.subrange(1, s2.len() as int);
                    }
                    match sub {
                        Ok((_, after)) => {
                            assert(tr0 + walk_trace(table, mem@, pc as int, depth as nat, limit, seen as nat)
                                =~= tr + walk_trace(table, mem@, pc + COMMAND_SIZE, depth as nat, limit, after as nat));
                            seen = after;
                        },
                        Err(e) => {
                            assert(tr0 + walk_trace(table, mem@, pc as int, depth as nat, limit, seen as nat) =~= tr);
                            return Err(e);
                        },
                    }
                },
                GBIResult::Continue => {
                    assert(tr0 + walk_trace(table, mem@, pc as int, depth as nat, limit, seen as nat)
                        =~= tr + walk_trace(table, mem@, pc + COMMAND_SIZE, depth as nat, limit, seen as nat));
                },
                GBIResult::Unknown(_) => {
                    match limit {
                        None => {
                            assert(tr0 + walk_trace(table, mem@, pc as int, depth as nat, limit, seen as nat)
                                =~= tr + walk_trace(table, mem@, pc + COMMAND_SIZE, depth as nat, limit, seen as nat));
                        },
                        Some(l) => {
                            if seen >= l {
                                assert(tr0 + walk_trace(table, mem@, pc as int, depth as nat, limit, seen as nat) =~= tr);
                                return Err(RcpError::TooManyUnknownOpcodes(pc));
                            }
                            assert(tr0 + walk_trace(table, mem@, pc as int, depth as nat, limit, seen as nat)
                                =~= tr + walk_trace(table, mem@, pc + COMMAND_SIZE, depth as nat, limit, (seen + 1) as nat));
                            seen = seen + 1;
                        },
                    }
                },
            }
            pc = pc + COMMAND_SIZE;
        }
    }
}

/// A list whose first `n` commands neither end it nor call another list (and
/// hold no unknown opcode where unknown opcodes are limited), and whose next
/// command ends it, ends at that command: the walk dispatches exactly those
/// `n + 1` commands, in order, each once, and stops at the terminator.
pub proof fn lemma_flat_list_reaches_terminator(
    table: Seq<Option<GfxOp>>,
    mem: Seq<u8>,
    start: int,
    n: nat,
    depth: nat,
    limit: Option<usize>,
    seen: nat,
)
    requires
        table.len() == 256,
        depth < MAX_DL_DEPTH,
        0 <= start,
        start + (n + 1) * COMMAND_SIZE <= mem.len(),
        forall|k: int|
            0 <= k < n ==> {
                let r = #[trigger] step_result(table, mem, start + k * COMMAND_SIZE);
                r is Continue || (r is Unknown && limit is None)
            },
        step_result(table, mem, start + n * COMMAND_SIZE) is Return,
    ensures
        walk(table, mem, start, depth, limit, seen) == Ok::<(int, nat), RcpError>(
            (start + n * COMMAND_SIZE, seen),
        ),
        walk_trace(table, mem, start, depth, limit, seen) == Seq::new(
            n + 1,
            |k: int| start + k * COMMAND_SIZE,
        ),
    decreases n,
{
    if n > 0 {
        assert(step_result(table, mem, start + 0 * COMMAND_SIZE) == step_result(table, mem, start));
        let next = start + COMMAND_SIZE;
        assert forall|k: int| 0 <= k < n - 1 implies {
            let r = #[trigger] step_result(table, mem, next + k * COMMAND_SIZE);
            r is Continue || (r is Unknown && limit is None)
        } by {
            assert(next + k * COMMAND_SIZE == start + (k + 1) * COMMAND_SIZE);
        }
        assert(next + (n - 1) * COMMAND_SIZE == start + n * COMMAND_SIZE);
        lemma_flat_list_reaches_terminator(table, mem, next, (n - 1) as nat, depth, limit, seen);
        assert(walk_trace(table, mem, start, depth, limit, seen) =~= Seq::new(
            n + 1,
            |k: int| start + k * COMMAND_SIZE,
        )) by {
            let rest = Seq::new(n as nat, |k: int| next + k * COMMAND_SIZE);
            assert forall|k: int| 0 <= k < n implies #[trigger] rest[k] == start + (k + 1) * COMMAND_SIZE by {
                assert(next + k * COMMAND_SIZE == start + (k + 1) * COMMAND_SIZE);
            }
        }
    } else {
        assert(walk_trace(table, mem, start, depth, limit, seen) =~= Seq::new(
            n + 1,
            |k: int| start + k * COMMAND_SIZE,
        ));
    }
}

/// After a call whose list ends, the walk resumes at the command that
/// follows the call: the commands dispatched are the call, then those of the
/// called list, then those from the command after the call on.
pub proof fn lemma_call_resumes_after_call_site(
    table: Seq<Option<GfxOp>>,
    mem: Seq<u8>,
    pc: int,
    depth: nat,
    limit: Option<usize>,
    seen: nat,
    target: usize,
    end: int,
    after: nat,
)
    requires
        depth < MAX_DL_DEPTH,
        0 <= pc,
        pc + COMMAND_SIZE <= mem.len(),
        step_result(table, mem, pc) == GBIResult::Recurse(target),
        walk(table, mem, target as int, depth + 1, limit, seen) == Ok::<(int, nat), RcpError>(
            (end, after),
        ),
    ensures
        walk(table, mem, pc, depth, limit, seen) == walk(table, mem, pc + COMMAND_SIZE, depth, limit, after),
        walk_trace(table, mem, pc, depth, limit, seen) == seq![pc] + walk_trace(
            table,
            mem,
            target as int,
            depth + 1,
            limit,
            seen,
        ) + walk_trace(table, mem, pc + COMMAND_SIZE, depth, limit, after),
{
}

} // verus!
