//! Typed model of one execution request.

use vstd::prelude::*;

verus! {

/// Format version of the program image. Newer versions key call targets by
/// raw offset; older ones by a symbol-style hash of the offset bytes.
#[derive(Clone, Copy, PartialEq, Eq, Structural, Debug)]
pub enum SbpfVersion {
    V0,
    V1,
    V2,
    V3,
}

/// Wire encoding of the version: 1, 2 and 3 name the newer formats, any
/// other value falls back to the oldest.
pub open spec fn version_from_wire(w: u32) -> SbpfVersion {
    if w == 1 {
        SbpfVersion::V1
    } else if w == 2 {
        SbpfVersion::V2
    } else if w == 3 {
        SbpfVersion::V3
    } else {
        SbpfVersion::V0
    }
}

impl SbpfVersion {
    pub fn from_wire(w: u32) -> (r: SbpfVersion)
        ensures
            r == version_from_wire(w),
    {
        if w == 1 {
            SbpfVersion::V1
        } else if w == 2 {
            SbpfVersion::V2
        } else if w == 3 {
            SbpfVersion::V3
        } else {
            SbpfVersion::V0
        }
    }

    /// Whether this format identifies call targets directly by offset
    /// (instead of by a symbol-style hash of the offset bytes).
    pub open spec fn stricter_elf_headers(self) -> bool {
        self is V3
    }

    /// Version floor for the direct memory-mapping semantics.
    pub open spec fn at_least_v1(self) -> bool {
        !(self is V0)
    }

    pub fn has_stricter_elf_headers(self) -> (r: bool)
        ensures
            r == self.stricter_elf_headers(),
    {
        match self {
            SbpfVersion::V3 => true,
            _ => false,
        }
    }

    pub fn is_at_least_v1(self) -> (r: bool)
        ensures
            r == self.at_least_v1(),
    {
        match self {
            SbpfVersion::V0 => false,
            _ => true,
        }
    }
}

/// One caller-declared input buffer of the address space.
pub struct InputRegion {
    /// Offset of the region within the input-region address window.
    pub offset: u64,
    /// Whether the program may write to the region.
    pub is_writable: bool,
    /// The region's bytes.
    pub content: Vec<u8>,
}

/// An execution request: program image, register file, memory sizing,
/// call-target whitelist, feature selection and compute budget.
pub struct ExecutionContext {
    /// The program image: read-only code, in fixed-width 8-byte slots.
    pub rodata: Vec<u8>,
    /// Requested entry offset, in instruction slots.
    pub entry_pc: u64,
    /// Bit-vector over code offsets marking valid call destinations.
    pub call_whitelist: Vec<u8>,
    /// Program format version.
    pub sbpf_version: SbpfVersion,
    /// Requested heap size in bytes; clamped to a hard ceiling.
    pub heap_max: u32,
    /// Caller-supplied initial register file r0..r11. Slots 1, 10 and 11
    /// are reserved by the engine and never seeded from here.
    pub regs: [u64; 12],
    /// Caller-declared input buffers, order preserved.
    pub input_regions: Vec<InputRegion>,
    /// Compute budget available for the run.
    pub cu_avail: u64,
    /// Whether the direct account-data mapping feature was requested.
    /// It is the only feature flag the planner consults.
    pub direct_mapping: bool,
    /// Bytes laid over the start of the zero-initialized stack.
    pub stack_prefix: Vec<u8>,
    /// Bytes laid over the start of the zero-initialized heap.
    pub heap_prefix: Vec<u8>,
}

} // verus!
