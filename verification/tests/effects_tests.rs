use sbpf_conformance::context::{ExecutionContext, InputRegion, SbpfVersion};
use sbpf_conformance::driver::{plan_execution, seed_registers};
use sbpf_conformance::effects::{normalize_outcome, RunOutcome, RunResult};
use sbpf_conformance::hash::pc_hash_exec;
use sbpf_conformance::layout::STACK_SIZE;
use sbpf_conformance::reconcile::{fault_code_exec, reconcile, VmFault};

fn base_ctx(code: Vec<u8>, cu: u64) -> ExecutionContext {
    ExecutionContext {
        rodata: code,
        entry_pc: 0,
        call_whitelist: vec![],
        sbpf_version: SbpfVersion::V0,
        heap_max: 4096,
        regs: [0; 12],
        input_regions: vec![],
        cu_avail: cu,
        direct_mapping: false,
        stack_prefix: vec![],
        heap_prefix: vec![],
    }
}

// The engine keeps the mapped sizes: the stack window and the clamped heap
// of `base_ctx` (4096 bytes).
fn outcome(result: RunResult, regs: [u64; 12], trace: Option<[u64; 12]>, cu: u64, depth: u64) -> RunOutcome {
    RunOutcome {
        result,
        registers: regs,
        trace_last: trace,
        cu_remaining: cu,
        call_depth: depth,
        heap: vec![0; 4096],
        stack: vec![0; STACK_SIZE],
        input_contents: vec![],
    }
}

// A single halt instruction with a budget of 1000: one unit consumed, no
// error, registers as seeded, program counter advanced one slot.
#[test]
fn single_halt_effects() {
    let halt = vec![0x95, 0, 0, 0, 0, 0, 0, 0];
    let mut ctx = base_ctx(halt, 1000);
    ctx.regs[2] = 42;
    let seeded = seed_registers(&ctx.regs);
    let mut trace = seeded;
    trace[11] = 1; // one slot past the entry
    let o = outcome(RunResult::Done(0), seeded, Some(trace), 999, 0);
    let e = normalize_outcome(&ctx, o).unwrap();
    assert_eq!(e.error, 0);
    assert_eq!(e.cu_avail, 999);
    assert_eq!(e.pc, 1);
    assert_eq!(e.regs, [0, 0, 42, 0, 0, 0, 0, 0, 0, 0, 0]);
}

// A call-by-immediate to offset 5 in a 3-instruction program with an empty
// whitelist: the lookup failure is reclassified as a call outside the text
// segment, with one call frame counted.
#[test]
fn oob_call_reclassified() {
    let mut code = vec![0u8; 24];
    code[0] = 0x85; // call-by-immediate in slot 0
    code[4..8].copy_from_slice(&pc_hash_exec(5).to_le_bytes());
    code[8] = 0x95;
    code[16] = 0x95;
    let ctx = base_ctx(code, 1000);
    let regs = [0u64; 12]; // faulted in slot 0
    let o = outcome(RunResult::Faulted(VmFault::UnsupportedInstruction), regs, None, 999, 0);
    let e = normalize_outcome(&ctx, o).unwrap();
    assert_eq!(e.error, fault_code_exec(VmFault::CallOutsideTextSegment));
    assert_eq!(e.frame_count, 1);
    assert_eq!(e.regs, [0; 11]);
}

// A call whose recovered target lies inside the program keeps the original
// lookup-failure classification.
#[test]
fn in_bounds_call_keeps_classification() {
    let mut code = vec![0u8; 24];
    code[0] = 0x85;
    code[4..8].copy_from_slice(&pc_hash_exec(2).to_le_bytes());
    let (f, d) = reconcile(&code, 0, 0, VmFault::UnsupportedInstruction);
    assert_eq!(f, VmFault::UnsupportedInstruction);
    assert_eq!(d, 0);
}

// The first invalid slot is already out of bounds: a call to offset equal to
// the instruction count is reclassified, not left as a lookup failure.
#[test]
fn first_out_of_bounds_slot_reclassified() {
    // One-slot program, call immediate hashing offset 1.
    let mut code = vec![0u8; 8];
    code[0] = 0x85;
    code[4..8].copy_from_slice(&pc_hash_exec(1).to_le_bytes());
    let (f, d) = reconcile(&code, 0, 0, VmFault::UnsupportedInstruction);
    assert_eq!(f, VmFault::CallOutsideTextSegment);
    assert_eq!(d, 1);
    // Three-slot program, call immediate hashing offset 3: same boundary.
    let mut code = vec![0u8; 24];
    code[0] = 0x85;
    code[4..8].copy_from_slice(&pc_hash_exec(3).to_le_bytes());
    let (f, d) = reconcile(&code, 0, 2, VmFault::UnsupportedInstruction);
    assert_eq!(f, VmFault::CallOutsideTextSegment);
    assert_eq!(d, 3);
}

// Budget exhaustion reports only its code, zero budget and the call depth;
// registers and memory are not recovered.
#[test]
fn budget_exhaustion_reports_minimal_record() {
    let ctx = base_ctx(vec![0x95, 0, 0, 0, 0, 0, 0, 0], 10);
    let o = outcome(
        RunResult::Faulted(VmFault::ExceededMaxInstructions),
        [7; 12],
        None,
        0,
        3,
    );
    let e = normalize_outcome(&ctx, o).unwrap();
    assert_eq!(e.error, fault_code_exec(VmFault::ExceededMaxInstructions));
    assert_eq!(e.cu_avail, 0);
    assert_eq!(e.frame_count, 3);
    assert_eq!(e.regs, [0; 11]);
    assert!(e.heap.is_empty() && e.stack.is_empty() && e.rodata.is_empty());
}

// A successful run that recorded no step yields no effects record.
#[test]
fn success_without_trace_yields_nothing() {
    let ctx = base_ctx(vec![0x95, 0, 0, 0, 0, 0, 0, 0], 10);
    let o = outcome(RunResult::Done(0), [0; 12], None, 9, 0);
    assert!(normalize_outcome(&ctx, o).is_none());
}

// Register isolation: overrides supplied for the reserved slots 1, 10 and
// 11 never reach the seeded file.
#[test]
fn reserved_register_slots_never_seeded() {
    let mut regs = [0u64; 12];
    regs[1] = 0xdead;
    regs[10] = 0xbeef;
    regs[11] = 0xf00d;
    regs[3] = 5;
    let seeded = seed_registers(&regs);
    assert_eq!(seeded[1], 0);
    assert_eq!(seeded[10], 0);
    assert_eq!(seeded[11], 0);
    assert_eq!(seeded[3], 5);
}

// Identical requests and outcomes normalize to identical records.
#[test]
fn normalization_is_deterministic() {
    let mk = || {
        let mut ctx = base_ctx(vec![0x95, 0, 0, 0, 0, 0, 0, 0], 1000);
        ctx.input_regions = vec![InputRegion { offset: 0, is_writable: true, content: vec![1, 2] }];
        let mut o = outcome(RunResult::Done(0), [0; 12], Some([4; 12]), 100, 0);
        o.input_contents = vec![vec![8, 9]];
        normalize_outcome(&ctx, o).unwrap()
    };
    let a = mk();
    let b = mk();
    assert_eq!(a.error, b.error);
    assert_eq!(a.regs, b.regs);
    assert_eq!(a.pc, b.pc);
    assert_eq!(a.cu_avail, b.cu_avail);
    assert_eq!(a.frame_count, b.frame_count);
    assert_eq!(a.heap, b.heap);
    assert_eq!(a.stack, b.stack);
    assert_eq!(a.rodata, b.rodata);
    assert_eq!(a.input_regions.len(), b.input_regions.len());
    assert_eq!(a.input_regions[0].content, b.input_regions[0].content);
}

// Writable input regions are re-extracted from the run; read-only ones keep
// their declared content.
#[test]
fn input_regions_honor_writable_flag() {
    let mut ctx = base_ctx(vec![0x95, 0, 0, 0, 0, 0, 0, 0], 1000);
    ctx.input_regions = vec![
        InputRegion { offset: 0, is_writable: true, content: vec![1, 1] },
        InputRegion { offset: 16, is_writable: false, content: vec![2, 2] },
    ];
    let mut o = outcome(RunResult::Done(0), [0; 12], Some([0; 12]), 100, 0);
    o.input_contents = vec![vec![9, 9], vec![8, 8]];
    let e = normalize_outcome(&ctx, o).unwrap();
    assert_eq!(e.input_regions[0].content, vec![9, 9]);
    assert_eq!(e.input_regions[1].content, vec![2, 2]);
}

// A plan exists exactly when the declared regions can be mapped, and the
// direct-mapping floor forces the feature on from version 1 up.
#[test]
fn plan_respects_version_floor() {
    let ctx = base_ctx(vec![0x95, 0, 0, 0, 0, 0, 0, 0], 1000);
    let p = plan_execution(&ctx).unwrap();
    assert!(!p.direct_mapping);
    assert!(p.stack_gaps);
    let mut ctx2 = base_ctx(vec![0x95, 0, 0, 0, 0, 0, 0, 0], 1000);
    ctx2.sbpf_version = SbpfVersion::V2;
    let p2 = plan_execution(&ctx2).unwrap();
    assert!(p2.direct_mapping);
    assert!(!p2.stack_gaps);
}
