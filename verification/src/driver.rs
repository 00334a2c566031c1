//! Execution planning.
//!
//! Turns one request into everything the engine run needs: the effective
//! feature selection (the direct memory-mapping feature is force-enabled
//! from format version 1 on), the stack-gap choice tied to it, the address
//! space, the call-target table, and the seeded register file. Registers 1,
//! 10 and 11 are never seeded from the request: they follow engine-internal
//! conventions for argument pointer, frame pointer and program counter, and
//! overriding them would corrupt the comparison.

use crate::context::{ExecutionContext, SbpfVersion};
use crate::layout::{build_memory_layout, is_layout_for, layout_valid, MemoryLayout};
use crate::registry::{build_call_registry, CallRegistry};
use vstd::prelude::*;

verus! {

/// Whether the direct account-data mapping semantics are active: requested
/// by the caller, or forced by the format-version floor.
pub open spec fn direct_mapping_active(ctx: ExecutionContext) -> bool {
    ctx.direct_mapping || ctx.sbpf_version.at_least_v1()
}

/// Inter-frame stack guard gaps are used exactly when direct mapping is not
/// active.
pub open spec fn stack_gaps_enabled(ctx: ExecutionContext) -> bool {
    !direct_mapping_active(ctx)
}

/// The register file handed to the engine: slots 0 and 2 through 9 from the
/// request, the reserved slots 1, 10 and 11 left to the engine.
pub open spec fn seeded_registers(regs: Seq<u64>) -> Seq<u64> {
    Seq::new(
        12,
        |i: int|
            if i == 1 || i == 10 || i == 11 {
                0u64
            } else {
                regs[i]
            },
    )
}

/// Everything one engine run is configured with.
pub struct ExecutionPlan {
    /// Program format version.
    pub version: SbpfVersion,
    /// Effective direct-mapping selection.
    pub direct_mapping: bool,
    /// Whether the stack carries inter-frame guard gaps.
    pub stack_gaps: bool,
    /// The assembled address space.
    pub layout: MemoryLayout,
    /// The call-target table.
    pub registry: CallRegistry,
    /// The seeded register file, slot 11 being the program counter.
    pub initial_registers: [u64; 12],
}

/// Seeds the register file from the request, leaving the reserved slots to
/// the engine.
pub fn seed_registers(regs: &[u64; 12]) -> (r: [u64; 12])
    ensures
        r@ == seeded_registers(regs@),
{
    let r = [
        regs[0],
        0,
        regs[2],
        regs[3],
        regs[4],
        regs[5],
        regs[6],
        regs[7],
        regs[8],
        regs[9],
        0,
        0,
    ];
    proof {
        assert(r@ =~= seeded_registers(regs@));
    }
    r
}

/// Plans one execution, or fails (without invoking the engine) when the
/// request's declared regions cannot be mapped.
pub fn plan_execution(ctx: &ExecutionContext) -> (r: Option<ExecutionPlan>)
    requires
        ctx.call_whitelist@.len() <= usize::MAX / 8,
    ensures
        r is Some <==> layout_valid(*ctx),
        r matches Some(p) ==> {
            &&& p.version == ctx.sbpf_version
            &&& p.direct_mapping == direct_mapping_active(*ctx)
            &&& p.stack_gaps == stack_gaps_enabled(*ctx)
            &&& is_layout_for(p.layout, *ctx, stack_gaps_enabled(*ctx))
            &&& p.registry.is_for(
                ctx.sbpf_version,
                ctx.rodata@.len(),
                ctx.entry_pc,
                ctx.call_whitelist@,
            )
            &&& p.initial_registers@ == seeded_registers(ctx.regs@)
        },
{
    let direct_mapping = ctx.direct_mapping || ctx.sbpf_version.is_at_least_v1();
    let stack_gaps = !direct_mapping;
    let layout = match build_memory_layout(ctx, stack_gaps) {
        Some(l) => l,
        None => {
            return None;
        },
    };
    let registry = build_call_registry(
        ctx.rodata.len(),
        ctx.entry_pc,
        &ctx.call_whitelist,
        ctx.sbpf_version,
    );
    let initial_registers = seed_registers(&ctx.regs);
    Some(
        ExecutionPlan {
            version: ctx.sbpf_version,
            direct_mapping,
            stack_gaps,
            layout,
            registry,
            initial_registers,
        },
    )
}

/// The reserved register slots never come from the request: they are zero
/// in every seeded file, and the seeded file is the same for two requests
/// that agree on the unreserved slots, whatever was supplied for slots 1,
/// 10 and 11.
pub proof fn lemma_register_isolation(regs1: Seq<u64>, regs2: Seq<u64>)
    requires
        regs1.len() == 12,
        regs2.len() == 12,
        forall|i: int| 0 <= i < 12 && i != 1 && i != 10 && i != 11 ==> regs1[i] == regs2[i],
    ensures
        seeded_registers(regs1)[1] == 0,
        seeded_registers(regs1)[10] == 0,
        seeded_registers(regs1)[11] == 0,
        seeded_registers(regs1) == seeded_registers(regs2),
{
    assert(seeded_registers(regs1) =~= seeded_registers(regs2));
}

} // verus!
