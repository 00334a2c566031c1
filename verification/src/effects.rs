//! Normalization of a raw run outcome into an effects record.
//!
//! The engine's raw result is reshaped for byte-for-byte comparison: final
//! registers are recovered from the last recorded trace step on success and
//! zeroed on failure (mid-fault register files are not trustworthy), the
//! program counter is recovered the same way, lookup faults go through
//! reconciliation, a budget-exhaustion fault keeps only its code and call
//! depth (memory written before the cut-off is unrecoverable), the stack
//! snapshot is stored with its zero suffix trimmed, and input regions are
//! re-extracted honoring each region's writable flag.

use crate::context::{ExecutionContext, InputRegion};
use crate::layout::{clamped_heap_size, clone_bytes, STACK_SIZE};
use crate::reconcile::{fault_code, fault_code_exec, reconcile, reconciled, VmFault};
use crate::{trimmed_len, vec_rtrim_zeros};
use vstd::prelude::*;

verus! {

/// How one run ended: a normal halt with the program's return value, or a
/// classified fault.
#[derive(Clone, Copy, PartialEq, Eq, Structural, Debug)]
pub enum RunResult {
    Done(u64),
    Faulted(VmFault),
}

/// The engine's raw result: final state as far as the engine reports it,
/// plus the memory the run may have written.
pub struct RunOutcome {
    /// Halt or classified fault.
    pub result: RunResult,
    /// Live register file at the end of the run; slot 11 is the program
    /// counter.
    pub registers: [u64; 12],
    /// Register file recorded at the last executed step, if any step was
    /// recorded. Failing runs do not reliably update the live file, so
    /// this is the only trustworthy source on success.
    pub trace_last: Option<[u64; 12]>,
    /// Compute budget left.
    pub cu_remaining: u64,
    /// Call depth at the end of the run.
    pub call_depth: u64,
    /// Final heap bytes.
    pub heap: Vec<u8>,
    /// Final stack bytes.
    pub stack: Vec<u8>,
    /// Final bytes of each declared input region, in declaration order.
    pub input_contents: Vec<Vec<u8>>,
}

/// What the engine interface guarantees of every outcome for a request:
/// budget is consumed, never minted; the call depth counter stays countable;
/// one final content per declared input region; the stack and heap keep
/// their mapped sizes; and a lookup fault can only arise from a program
/// with at least one instruction slot.
pub open spec fn outcome_wf(o: RunOutcome, ctx: ExecutionContext) -> bool {
    &&& o.cu_remaining <= ctx.cu_avail
    &&& o.call_depth < u64::MAX
    &&& o.input_contents@.len() == ctx.input_regions@.len()
    &&& o.stack@.len() == STACK_SIZE
    &&& o.heap@.len() == clamped_heap_size(ctx.heap_max)
    &&& (o.result matches RunResult::Faulted(VmFault::UnsupportedInstruction) ==> ctx.rodata@.len()
        >= 8)
}

/// The normalized, serializable summary of one run.
pub struct EffectsRecord {
    /// 0 on success, a negative fault or framework code otherwise.
    pub error: i64,
    /// The 11 general-purpose registers.
    pub regs: [u64; 11],
    /// Program counter at halt.
    pub pc: u64,
    /// Compute budget left.
    pub cu_avail: u64,
    /// Call depth, after reconciliation adjustments.
    pub frame_count: u64,
    /// Final heap bytes, verbatim.
    pub heap: Vec<u8>,
    /// Final stack bytes, zero suffix trimmed.
    pub stack: Vec<u8>,
    /// The code bytes, unmodified.
    pub rodata: Vec<u8>,
    /// The input regions, re-extracted honoring each writable flag.
    pub input_regions: Vec<InputRegion>,
}

pub open spec fn zero_regs11() -> Seq<u64> {
    Seq::new(11, |i: int| 0u64)
}

/// Memory carried into a full effects record: heap verbatim, stack trimmed,
/// code verbatim, and each input region taken from the run only if it was
/// writable.
pub open spec fn carried_memory(ctx: ExecutionContext, o: RunOutcome, e: EffectsRecord) -> bool {
    &&& e.heap@ == o.heap@
    &&& e.stack@ == o.stack@.subrange(0, trimmed_len(o.stack@))
    &&& e.rodata@ == ctx.rodata@
    &&& e.input_regions@.len() == ctx.input_regions@.len()
    &&& forall|i: int|
        0 <= i < ctx.input_regions@.len() ==> {
            let out = #[trigger] e.input_regions@[i];
            &&& out.offset == ctx.input_regions@[i].offset
            &&& out.is_writable == ctx.input_regions@[i].is_writable
            &&& out.content@ == (if ctx.input_regions@[i].is_writable {
                o.input_contents@[i]@
            } else {
                ctx.input_regions@[i].content@
            })
        }
}

/// The whole normalization, as a relation between a request, an outcome and
/// the record produced. Every field of the record is pinned.
pub open spec fn effects_post(
    ctx: ExecutionContext,
    o: RunOutcome,
    r: Option<EffectsRecord>,
) -> bool {
    match o.result {
        RunResult::Done(_) => match o.trace_last {
            None => r is None,
            Some(t) => r matches Some(e) && {
                &&& e.error == 0
                &&& e.regs@ == t@.subrange(0, 11)
                &&& e.pc == t@[11]
                &&& e.cu_avail == o.cu_remaining
                &&& e.frame_count == o.call_depth
                &&& carried_memory(ctx, o, e)
            },
        },
        RunResult::Faulted(f) => {
            if f is ExceededMaxInstructions {
                r matches Some(e) && {
                    &&& e.error == fault_code(VmFault::ExceededMaxInstructions)
                    &&& e.regs@ == zero_regs11()
                    &&& e.pc == 0
                    &&& e.cu_avail == 0
                    &&& e.frame_count == o.call_depth
                    &&& e.heap@.len() == 0
                    &&& e.stack@.len() == 0
                    &&& e.rodata@.len() == 0
                    &&& e.input_regions@.len() == 0
                }
            } else {
                r matches Some(e) && {
                    let rec = reconciled(ctx.rodata@, o.registers@[11], o.call_depth, f);
                    &&& e.error == fault_code(rec.0)
                    &&& e.frame_count == rec.1
                    &&& e.regs@ == zero_regs11()
                    &&& e.pc == o.registers@[11]
                    &&& e.cu_avail == o.cu_remaining
                    &&& carried_memory(ctx, o, e)
                }
            }
        },
    }
}

fn merge_input_regions(ctx: &ExecutionContext, contents: &Vec<Vec<u8>>) -> (r: Vec<InputRegion>)
    requires
        contents@.len() == ctx.input_regions@.len(),
    ensures
        r@.len() == ctx.input_regions@.len(),
        forall|i: int|
            0 <= i < ctx.input_regions@.len() ==> {
                let out = #[trigger] r@[i];
                &&& out.offset == ctx.input_regions@[i].offset
                &&& out.is_writable == ctx.input_regions@[i].is_writable
                &&& out.content@ == (if ctx.input_regions@[i].is_writable {
                    contents@[i]@
                } else {
                    ctx.input_regions@[i].content@
                })
            },
{
    let n = ctx.input_regions.len();
    let mut out: Vec<InputRegion> = Vec::new();
    let mut i: usize = 0;
    while i < n
        invariant
            i <= n,
            n == ctx.input_regions@.len(),
            contents@.len() == ctx.input_regions@.len(),
            out@.len() == i,
            forall|j: int|
                0 <= j < i ==> {
                    let o = #[trigger] out@[j];
                    &&& o.offset == ctx.input_regions@[j].offset
                    &&& o.is_writable == ctx.input_regions@[j].is_writable
                    &&& o.content@ == (if ctx.input_regions@[j].is_writable {
                        contents@[j]@
                    } else {
                        ctx.input_regions@[j].content@
                    })
                },
        decreases n - i,
    {
        let reg = &ctx.input_regions[i];
        let content = if reg.is_writable {
            clone_bytes(&contents[i])
        } else {
            clone_bytes(&reg.content)
        };
        out.push(InputRegion { offset: reg.offset, is_writable: reg.is_writable, content });
        i = i + 1;
    }
    out
}

/// Produces the normalized effects record for one run, or nothing for a
/// successful run that recorded no step (there is then no trustworthy
/// final register state to report).
pub fn normalize_outcome(ctx: &ExecutionContext, o: RunOutcome) -> (r: Option<EffectsRecord>)
    requires
        outcome_wf(o, *ctx),
    ensures
        effects_post(*ctx, o, r),
{
    match o.result {
        RunResult::Faulted(f) => {
            if matches!(f, VmFault::ExceededMaxInstructions) {
                let e = EffectsRecord {
                    error: fault_code_exec(VmFault::ExceededMaxInstructions),
                    regs: [0, 0, 0, 0, 0, 0, 0, 0, 0, 0, 0],
                    pc: 0,
                    cu_avail: 0,
                    frame_count: o.call_depth,
                    heap: Vec::new(),
                    stack: Vec::new(),
                    rodata: Vec::new(),
                    input_regions: Vec::new(),
                };
                proof {
                    assert(e.regs@ =~= zero_regs11());
                }
                return Some(e);
            }
            let live_pc = o.registers[11];
            let (fault2, depth2) = reconcile(&ctx.rodata, live_pc, o.call_depth, f);
            let e = EffectsRecord {
                error: fault_code_exec(fault2),
                regs: [0, 0, 0, 0, 0, 0, 0, 0, 0, 0, 0],
                pc: live_pc,
                cu_avail: o.cu_remaining,
                frame_count: depth2,
                heap: o.heap,
                stack: vec_rtrim_zeros(o.stack.as_slice()),
                rodata: clone_bytes(&ctx.rodata),
                input_regions: merge_input_regions(ctx, &o.input_contents),
            };
            proof {
                assert(e.regs@ =~= zero_regs11());
            }
            Some(e)
        },
        RunResult::Done(_) => {
            match o.trace_last {
                None => None,
                Some(t) => {
                    let e = EffectsRecord {
                        error: 0,
                        regs: [
                            t[0],
                            t[1],
                            t[2],
                            t[3],
                            t[4],
                            t[5],
                            t[6],
                            t[7],
                            t[8],
                            t[9],
                            t[10],
                        ],
                        pc: t[11],
                        cu_avail: o.cu_remaining,
                        frame_count: o.call_depth,
                        heap: o.heap,
                        stack: vec_rtrim_zeros(o.stack.as_slice()),
                        rodata: clone_bytes(&ctx.rodata),
                        input_regions: merge_input_regions(ctx, &o.input_contents),
                    };
                    proof {
                        assert(e.regs@ =~= t@.subrange(0, 11));
                    }
                    Some(e)
                },
            }
        },
    }
}

/// Framework code for a program that fails structural verification.
pub const ERR_VERIFY_FAILED: i64 = -2;

/// Framework code for a program whose native-code generation fails.
pub const ERR_JIT_FAILED: i64 = -3;

/// The record reported for a framework-level failure (structural
/// verification or native-code generation): only the code, everything else
/// at its default.
pub fn framework_effects(code: i64) -> (r: EffectsRecord)
    ensures
        r.error == code,
        r.regs@ == zero_regs11(),
        r.pc == 0,
        r.cu_avail == 0,
        r.frame_count == 0,
        r.heap@.len() == 0,
        r.stack@.len() == 0,
        r.rodata@.len() == 0,
        r.input_regions@.len() == 0,
{
    let e = EffectsRecord {
        error: code,
        regs: [0, 0, 0, 0, 0, 0, 0, 0, 0, 0, 0],
        pc: 0,
        cu_avail: 0,
        frame_count: 0,
        heap: Vec::new(),
        stack: Vec::new(),
        rodata: Vec::new(),
        input_regions: Vec::new(),
    };
    proof {
        assert(e.regs@ =~= zero_regs11());
    }
    e
}

/// Reconciliation does not depend on the reserved register slots, and a
/// full record's budget never exceeds what the request supplied.
pub proof fn lemma_budget_monotonic(
    ctx: ExecutionContext,
    o: RunOutcome,
    r: Option<EffectsRecord>,
)
    requires
        outcome_wf(o, ctx),
        effects_post(ctx, o, r),
    ensures
        r matches Some(e) ==> e.cu_avail <= ctx.cu_avail,
{
}

/// Normalization is deterministic: any two records satisfying the
/// normalization relation for the same request and outcome agree on every
/// field.
pub proof fn lemma_effects_deterministic(
    ctx: ExecutionContext,
    o: RunOutcome,
    r1: Option<EffectsRecord>,
    r2: Option<EffectsRecord>,
)
    requires
        effects_post(ctx, o, r1),
        effects_post(ctx, o, r2),
    ensures
        r1 is Some <==> r2 is Some,
        r1 matches Some(e1) ==> r2 matches Some(e2) ==> {
            &&& e1.error == e2.error
            &&& e1.regs@ == e2.regs@
            &&& e1.pc == e2.pc
            &&& e1.cu_avail == e2.cu_avail
            &&& e1.frame_count == e2.frame_count
            &&& e1.heap@ == e2.heap@
            &&& e1.stack@ == e2.stack@
            &&& e1.rodata@ == e2.rodata@
            &&& e1.input_regions@.len() == e2.input_regions@.len()
            &&& forall|i: int|
                0 <= i < e1.input_regions@.len() ==> (#[trigger] e1.input_regions@[i]).offset
                    == e2.input_regions@[i].offset && e1.input_regions@[i].is_writable
                    == e2.input_regions@[i].is_writable && e1.input_regions@[i].content@
                    == e2.input_regions@[i].content@
        },
{
    if r1 is Some && r2 is Some {
        let e1 = r1.unwrap();
        let e2 = r2.unwrap();
        if e1.heap@.len() == 0 && e1.rodata@.len() == 0 {
        }
    }
}

} // verus!
