//! Address-space construction.
//!
//! One execution owns an ordered, non-overlapping set of regions: read-only
//! code, a writable stack (optionally split by inter-frame guard gaps), a
//! writable heap clamped to a hard ceiling, and the caller-declared input
//! buffers in declaration order. Stack and heap are zero-initialized and
//! then overlaid with caller-supplied prefixes. A declaration that violates
//! the mapping invariant fails construction before the engine is invoked.

use crate::context::{ExecutionContext, InputRegion};
use vstd::prelude::*;

verus! {

/// Base of the read-only code window.
pub const MM_RODATA_START: u64 = 0x1_0000_0000;

/// Base of the stack window.
pub const MM_STACK_START: u64 = 0x2_0000_0000;

/// Base of the heap window.
pub const MM_HEAP_START: u64 = 0x3_0000_0000;

/// Base of the caller-input window.
pub const MM_INPUT_START: u64 = 0x4_0000_0000;

/// Fixed stack size in bytes: one frame per call-depth level.
pub const STACK_SIZE: usize = 262144;

/// Size of one stack frame, and of the inter-frame guard gap when gaps are
/// enabled.
pub const STACK_FRAME_SIZE: u64 = 4096;

/// Hard ceiling on the heap size in bytes.
pub const HEAP_MAX: u32 = 262144;

/// One mapped region of the address space.
pub struct Region {
    /// Base virtual address.
    pub vaddr: u64,
    /// Backing bytes.
    pub bytes: Vec<u8>,
    /// Whether the program may write to the region.
    pub is_writable: bool,
    /// Size of the guard gap between frames (stack region only, else 0).
    pub gap_size: u64,
}

/// The assembled address space: code, stack, heap, then the input regions
/// in declaration order.
pub struct MemoryLayout {
    pub regions: Vec<Region>,
}

/// The heap size actually mapped: the request clamped to the hard ceiling.
pub open spec fn clamped_heap_size(requested: u32) -> u32 {
    if requested < HEAP_MAX {
        requested
    } else {
        HEAP_MAX
    }
}

/// A zero-initialized buffer of `size` bytes overlaid with `prefix` at
/// offset 0 (the prefix is cut off at the buffer size).
pub open spec fn prefixed_bytes(size: nat, prefix: Seq<u8>) -> Seq<u8> {
    Seq::new(size, |i: int| if i < prefix.len() { prefix[i] } else { 0u8 })
}

/// Validity of the declared input regions from index `i` on, with the end
/// of the previously mapped region at `prev_end`: each region must start at
/// or after that end (regions are ordered and never overlap) and must fit
/// the 64-bit address space.
pub open spec fn inputs_valid_from(rs: Seq<InputRegion>, i: int, prev_end: u64) -> bool
    decreases rs.len() - i,
{
    if i < 0 || i >= rs.len() {
        true
    } else {
        let start = MM_INPUT_START + rs[i].offset;
        &&& start <= u64::MAX
        &&& prev_end <= start
        &&& start + rs[i].content@.len() <= u64::MAX
        &&& inputs_valid_from(rs, i + 1, (start + rs[i].content@.len()) as u64)
    }
}

/// Validity of a whole input declaration.
pub open spec fn inputs_valid(rs: Seq<InputRegion>) -> bool {
    inputs_valid_from(rs, 0, MM_INPUT_START)
}

/// Whether a request can be mapped at all: the code fits its window and the
/// input declaration is valid.
pub open spec fn layout_valid(ctx: ExecutionContext) -> bool {
    &&& ctx.rodata@.len() <= 0x1_0000_0000
    &&& inputs_valid(ctx.input_regions@)
}

/// What the assembled address space holds for a request, with `stack_gaps`
/// telling whether inter-frame guard gaps are enabled.
pub open spec fn is_layout_for(l: MemoryLayout, ctx: ExecutionContext, stack_gaps: bool) -> bool {
    let rs = l.regions@;
    &&& rs.len() == 3 + ctx.input_regions@.len()
    &&& rs[0].vaddr == MM_RODATA_START
    &&& rs[0].bytes@ == ctx.rodata@
    &&& !rs[0].is_writable
    &&& rs[0].gap_size == 0
    &&& rs[1].vaddr == MM_STACK_START
    &&& rs[1].bytes@ == prefixed_bytes(STACK_SIZE as nat, ctx.stack_prefix@)
    &&& rs[1].is_writable
    &&& rs[1].gap_size == (if stack_gaps {
        STACK_FRAME_SIZE
    } else {
        0
    })
    &&& rs[2].vaddr == MM_HEAP_START
    &&& rs[2].bytes@ == prefixed_bytes(clamped_heap_size(ctx.heap_max) as nat, ctx.heap_prefix@)
    &&& rs[2].is_writable
    &&& rs[2].gap_size == 0
    &&& forall|i: int|
        0 <= i < ctx.input_regions@.len() ==> {
            let r = #[trigger] rs[3 + i];
            &&& r.vaddr == MM_INPUT_START + ctx.input_regions@[i].offset
            &&& r.bytes@ == ctx.input_regions@[i].content@
            &&& r.is_writable == ctx.input_regions@[i].is_writable
            &&& r.gap_size == 0
        }
}

/// A zero-filled buffer of `size` bytes with `prefix` copied over its
/// start, exactly as the stack and heap windows are initialized.
pub fn make_prefixed_buffer(size: usize, prefix: &Vec<u8>) -> (r: Vec<u8>)
    ensures
        r@ == prefixed_bytes(size as nat, prefix@),
{
    let mut r: Vec<u8> = Vec::new();
    let mut i: usize = 0;
    while i < size
        invariant
            i <= size,
            r@.len() == i,
            forall|j: int|
                0 <= j < i ==> r@[j] == (if j < prefix@.len() {
                    prefix@[j]
                } else {
                    0u8
                }),
        decreases size - i,
    {
        if i < prefix.len() {
            r.push(prefix[i]);
        } else {
            r.push(0);
        }
        i = i + 1;
    }
    proof {
        assert(r@ =~= prefixed_bytes(size as nat, prefix@));
    }
    r
}

pub(crate) fn clone_bytes(v: &Vec<u8>) -> (r: Vec<u8>)
    ensures
        r@ == v@,
{
    let mut r: Vec<u8> = Vec::new();
    let mut i: usize = 0;
    while i < v.len()
        invariant
            i <= v@.len(),
            r@ == v@.subrange(0, i as int),
        decreases v@.len() - i,
    {
        r.push(v[i]);
        proof {
            assert(v@.subrange(0, i + 1) =~= v@.subrange(0, i as int).push(v@[i as int]));
        }
        i = i + 1;
    }
    proof {
        assert(v@.subrange(0, v@.len() as int) =~= v@);
    }
    r
}

/// Assembles the address space for a request, or fails (before any engine
/// work) if the declared regions violate the mapping invariant.
pub fn build_memory_layout(ctx: &ExecutionContext, stack_gaps: bool) -> (r: Option<MemoryLayout>)
    ensures
        r is Some <==> layout_valid(*ctx),
        r matches Some(l) ==> is_layout_for(l, *ctx, stack_gaps),
{
    if ctx.rodata.len() as u64 > 0x1_0000_0000u64 {
        return None;
    }
    let mut regions: Vec<Region> = Vec::new();
    regions.push(
        Region {
            vaddr: MM_RODATA_START,
            bytes: clone_bytes(&ctx.rodata),
            is_writable: false,
            gap_size: 0,
        },
    );
    regions.push(
        Region {
            vaddr: MM_STACK_START,
            bytes: make_prefixed_buffer(STACK_SIZE, &ctx.stack_prefix),
            is_writable: true,
            gap_size: if stack_gaps {
                STACK_FRAME_SIZE
            } else {
                0
            },
        },
    );
    let heap_size = if ctx.heap_max < HEAP_MAX {
        ctx.heap_max
    } else {
        HEAP_MAX
    };
    regions.push(
        Region {
            vaddr: MM_HEAP_START,
            bytes: make_prefixed_buffer(heap_size as usize, &ctx.heap_prefix),
            is_writable: true,
            gap_size: 0,
        },
    );
    let mut prev_end: u64 = MM_INPUT_START;
    let mut i: usize = 0;
    let n = ctx.input_regions.len();
    while i < n
        invariant
            i <= n,
            n == ctx.input_regions@.len(),
            regions@.len() == 3 + i,
            inputs_valid(ctx.input_regions@) <==> inputs_valid_from(
                ctx.input_regions@,
                i as int,
                prev_end,
            ),
            forall|j: int|
                0 <= j < i ==> {
                    let r = #[trigger] regions@[3 + j];
                    &&& r.vaddr == MM_INPUT_START + ctx.input_regions@[j].offset
                    &&& r.bytes@ == ctx.input_regions@[j].content@
                    &&& r.is_writable == ctx.input_regions@[j].is_writable
                    &&& r.gap_size == 0
                },
            regions@[0].vaddr == MM_RODATA_START && regions@[0].bytes@ == ctx.rodata@ && !regions@[
                0
            ].is_writable && regions@[0].gap_size == 0,
            regions@[1].vaddr == MM_STACK_START && regions@[1].bytes@ == prefixed_bytes(
                STACK_SIZE as nat,
                ctx.stack_prefix@,
            ) && regions@[1].is_writable && regions@[1].gap_size == (if stack_gaps {
                STACK_FRAME_SIZE
            } else {
                0u64
            }),
            regions@[2].vaddr == MM_HEAP_START && regions@[2].bytes@ == prefixed_bytes(
                clamped_heap_size(ctx.heap_max) as nat,
                ctx.heap_prefix@,
            ) && regions@[2].is_writable && regions@[2].gap_size == 0,
        decreases n - i,
    {
        let reg = &ctx.input_regions[i];
        if reg.offset > u64::MAX - MM_INPUT_START {
            return None;
        }
        let start = MM_INPUT_START + reg.offset;
        if start < prev_end {
            return None;
        }
        let len = reg.content.len() as u64;
        if len > u64::MAX - start {
            return None;
        }
        regions.push(
            Region {
                vaddr: start,
                bytes: clone_bytes(&reg.content),
                is_writable: reg.is_writable,
                gap_size: 0,
            },
        );
        prev_end = start + len;
        i = i + 1;
    }
    Some(MemoryLayout { regions })
}

} // verus!
