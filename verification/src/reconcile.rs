//! Fault classification and error reconciliation.
//!
//! The engine reports a failed call-target lookup as an unsupported
//! instruction. The comparison partner validates call targets against a
//! bit-vector instead, and reports a target beyond the code segment
//! differently. To agree, a lookup failure is re-inspected: if the faulting
//! instruction is a call-by-immediate, the immediate's hash is inverted back
//! to the intended offset, and a target at or beyond the program's
//! instruction count is reclassified as a call outside the text segment,
//! counting the frame the reference implementation enters before detecting
//! the fault.

use crate::hash::{le_word, pc_hash_inverse, pc_hash_inverse_exec};
use vstd::prelude::*;

verus! {

/// Opcode of a call with an immediate call-target operand.
pub const OPC_CALL_IMM: u8 = 0x85;

/// The shared fault vocabulary of the two implementations.
#[derive(Clone, Copy, PartialEq, Eq, Structural, Debug)]
pub enum VmFault {
    /// Call depth limit reached.
    CallDepthExceeded,
    /// Return from the root call frame.
    ExitRootCallFrame,
    /// Division by zero.
    DivideByZero,
    /// Signed division overflow.
    DivideOverflow,
    /// Execution ran past the end of the text segment.
    ExecutionOverrun,
    /// Call target outside the text segment.
    CallOutsideTextSegment,
    /// Compute budget exhausted.
    ExceededMaxInstructions,
    /// Dereference of an unmapped virtual address.
    InvalidVirtualAddress,
    /// Reference to an invalid memory region.
    InvalidMemoryRegion,
    /// Out-of-bounds or permission-violating access.
    AccessViolation,
    /// Out-of-bounds access within the stack window.
    StackAccessViolation,
    /// Instruction encoding the executor rejects outright.
    InvalidInstruction,
    /// Instruction the verifier or executor refuses, including a
    /// call-by-immediate whose target hash is not registered.
    UnsupportedInstruction,
    /// An engine-reported condition outside the shared fault vocabulary
    /// (engine-internal or harness-level); never reclassified.
    EngineInternal,
}

/// The negative error code each fault is reported under in an effects
/// record. Zero is success; `-2` and `-3` are reserved for the framework's
/// verification and compilation failures.
pub open spec fn fault_code(f: VmFault) -> i64 {
    match f {
        VmFault::CallDepthExceeded => -11i64,
        VmFault::ExitRootCallFrame => -12i64,
        VmFault::DivideByZero => -13i64,
        VmFault::DivideOverflow => -14i64,
        VmFault::ExecutionOverrun => -15i64,
        VmFault::CallOutsideTextSegment => -16i64,
        VmFault::ExceededMaxInstructions => -17i64,
        VmFault::InvalidVirtualAddress => -18i64,
        VmFault::InvalidMemoryRegion => -19i64,
        VmFault::AccessViolation => -20i64,
        VmFault::StackAccessViolation => -21i64,
        VmFault::UnsupportedInstruction => -22i64,
        VmFault::InvalidInstruction => -23i64,
        VmFault::EngineInternal => -24i64,
    }
}

/// Executable counterpart of `fault_code`.
pub fn fault_code_exec(f: VmFault) -> (r: i64)
    ensures
        r == fault_code(f),
{
    match f {
        VmFault::CallDepthExceeded => -11,
        VmFault::ExitRootCallFrame => -12,
        VmFault::DivideByZero => -13,
        VmFault::DivideOverflow => -14,
        VmFault::ExecutionOverrun => -15,
        VmFault::CallOutsideTextSegment => -16,
        VmFault::ExceededMaxInstructions => -17,
        VmFault::InvalidVirtualAddress => -18,
        VmFault::InvalidMemoryRegion => -19,
        VmFault::AccessViolation => -20,
        VmFault::StackAccessViolation => -21,
        VmFault::UnsupportedInstruction => -22,
        VmFault::InvalidInstruction => -23,
        VmFault::EngineInternal => -24,
    }
}

/// Opcode byte of the fixed-width instruction in slot `pc`.
pub open spec fn insn_opcode(code: Seq<u8>, pc: nat) -> u8
    recommends
        pc * 8 + 8 <= code.len(),
{
    code[pc * 8 as int]
}

/// Immediate operand of the instruction in slot `pc`, as the unsigned
/// 32-bit little-endian word it was encoded as.
pub open spec fn insn_imm_u32(code: Seq<u8>, pc: nat) -> u32
    recommends
        pc * 8 + 8 <= code.len(),
{
    le_word(code[pc * 8 + 4 as int], code[pc * 8 + 5 as int], code[pc * 8 + 6 as int], code[pc * 8 + 7 as int])
}

/// The faulting slot used for re-inspection: the recorded program counter,
/// clamped to the last instruction slot.
pub open spec fn clamped_fault_pc(code_len: nat, live_pc: u64) -> nat {
    let icount = code_len / 8;
    let last = if icount == 0 {
        0
    } else {
        (icount - 1) as nat
    };
    if live_pc as nat <= last {
        live_pc as nat
    } else {
        last
    }
}

/// Reconciled classification of a fault, together with the adjusted call
/// depth.
pub open spec fn reconciled(code: Seq<u8>, live_pc: u64, depth: u64, fault: VmFault) -> (
    VmFault,
    u64,
) {
    if fault is UnsupportedInstruction {
        let icount = code.len() / 8;
        let p = clamped_fault_pc(code.len(), live_pc);
        if insn_opcode(code, p) == OPC_CALL_IMM && pc_hash_inverse(insn_imm_u32(code, p)) >= (
        icount as u32) {
            (VmFault::CallOutsideTextSegment, (depth + 1) as u64)
        } else {
            (fault, depth)
        }
    } else {
        (fault, depth)
    }
}

/// Re-inspects a fault at the recorded program counter and reclassifies a
/// failed call-target lookup whose intended target lies outside the program.
/// Returns the classification and the adjusted call depth.
pub fn reconcile(code: &Vec<u8>, live_pc: u64, depth: u64, fault: VmFault) -> (r: (VmFault, u64))
    requires
        fault is UnsupportedInstruction ==> code@.len() >= 8,
        depth < u64::MAX,
    ensures
        r == reconciled(code@, live_pc, depth, fault),
{
    if !matches!(fault, VmFault::UnsupportedInstruction) {
        return (fault, depth);
    }
    let icount = code.len() / 8;
    let last = icount - 1;
    let p = if live_pc < last as u64 {
        live_pc as usize
    } else {
        last
    };
    proof {
        assert(p as nat == clamped_fault_pc(code@.len(), live_pc));
        assert(p * 8 + 8 <= code@.len());
    }
    let opc = code[p * 8];
    if opc != OPC_CALL_IMM {
        return (fault, depth);
    }
    let imm = le_word_at(code, p * 8 + 4);
    let target = pc_hash_inverse_exec(imm);
    #[verifier::truncate]
    let bound = icount as u32;
    if target >= bound {
        (VmFault::CallOutsideTextSegment, depth + 1)
    } else {
        (fault, depth)
    }
}

fn le_word_at(code: &Vec<u8>, at: usize) -> (r: u32)
    requires
        at + 4 <= code@.len(),
    ensures
        r == le_word(code@[at as int], code@[at + 1], code@[at + 2], code@[at + 3]),
{
    let n = code.len();
    (code[at] as u32) | ((code[at + 1] as u32) << 8) | ((code[at + 2] as u32) << 16) | ((code[at
        + 3] as u32) << 24)
}

/// A failed lookup of a call-by-immediate whose intended target lies at or
/// beyond the program's instruction count is always reclassified as a call
/// outside the text segment, with one extra call frame counted — never left
/// as a plain lookup failure.
pub proof fn lemma_oob_call_reclassified(
    code: Seq<u8>,
    live_pc: u64,
    depth: u64,
    target: u32,
)
    requires
        code.len() >= 8,
        depth < u64::MAX,
        insn_opcode(code, clamped_fault_pc(code.len(), live_pc)) == OPC_CALL_IMM,
        insn_imm_u32(code, clamped_fault_pc(code.len(), live_pc)) == crate::hash::pc_hash(target),
        target >= code.len() / 8,
        code.len() / 8 <= u32::MAX,
    ensures
        reconciled(code, live_pc, depth, VmFault::UnsupportedInstruction) == (
            VmFault::CallOutsideTextSegment,
            (depth + 1) as u64,
        ),
{
    crate::hash::lemma_pc_hash_roundtrip(target);
    assert((code.len() / 8) as u32 == code.len() / 8);
}

} // verus!
