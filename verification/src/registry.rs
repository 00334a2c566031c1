//! Call-target resolution table.
//!
//! The engine resolves a call instruction's immediate operand by hash lookup.
//! To agree with a second implementation that instead validates call targets
//! against a bit-vector over code offsets, the table is populated from that
//! bit-vector: every whitelisted offset strictly below the program's
//! instruction count is registered under a version-dependent hash, and the
//! (clamped) entry point is always registered. Offsets at or beyond the
//! instruction count are never registered from the whitelist, mirroring a
//! fatal-crash avoidance rule of the reference engine.

use crate::context::SbpfVersion;
use crate::hash::{pc_hash, pc_hash_exec, symbol_hash, entrypoint_bytes, entrypoint_hash};
use vstd::prelude::*;

verus! {

/// One table entry: a 32-bit call-site hash and the code offset it resolves
/// to, in instruction slots.
pub struct RegistryEntry {
    pub hash: u32,
    pub target_pc: usize,
}

/// The call-target resolution table. The first entry is always the entry
/// point; later entries come from the whitelist in offset order, skipping
/// hashes that are already present (first registration wins).
pub struct CallRegistry {
    pub entries: Vec<RegistryEntry>,
}

/// Number of fixed-width instruction slots in a code image.
pub open spec fn instruction_count(code_len: nat) -> nat {
    code_len / 8
}

/// The entry offset actually registered: clamped to the last valid
/// instruction slot (slot 0 for an empty image).
pub open spec fn clamped_entry_pc(code_len: nat, entry_pc: u64) -> nat {
    let max_pc = instruction_count(code_len);
    let last = if max_pc == 0 {
        0
    } else {
        (max_pc - 1) as nat
    };
    if entry_pc as nat <= last {
        entry_pc as nat
    } else {
        last
    }
}

/// Whether the whitelist bit for offset `pc` is set.
pub open spec fn whitelisted(wl: Seq<u8>, pc: nat) -> bool {
    pc / 8 < wl.len() && (wl[(pc / 8) as int] & (1u8 << ((pc % 8) as u32))) != 0
}

/// The hash a whitelisted offset is registered under: the raw offset for the
/// stricter formats, else the symbol hash of its little-endian encoding.
pub open spec fn version_pc_hash(v: SbpfVersion, pc: nat) -> u32 {
    if v.stricter_elf_headers() {
        pc as u32
    } else {
        pc_hash(pc as u32)
    }
}

/// The hash the entry point is registered under: the raw offset for the
/// stricter formats, else the hash of the textual entry-point name (older
/// formats identify the entry by name, not position).
pub open spec fn entry_hash(v: SbpfVersion, code_len: nat, entry_pc: u64) -> u32 {
    if v.stricter_elf_headers() {
        clamped_entry_pc(code_len, entry_pc) as u32
    } else {
        symbol_hash(entrypoint_bytes())
    }
}

/// Whether some entry carries hash `h`.
pub open spec fn contains_hash(s: Seq<RegistryEntry>, h: u32) -> bool {
    exists|i: int| 0 <= i < s.len() && (#[trigger] s[i]).hash == h
}

/// Registration of one offset: kept out if its hash is already taken.
pub open spec fn add_entry(s: Seq<RegistryEntry>, h: u32, pc: usize) -> Seq<RegistryEntry> {
    if contains_hash(s, h) {
        s
    } else {
        s.push(RegistryEntry { hash: h, target_pc: pc })
    }
}

/// The table after considering whitelist offsets `0..cursor`, starting from
/// the table holding only the entry point.
pub open spec fn registry_after(
    v: SbpfVersion,
    code_len: nat,
    entry_pc: u64,
    wl: Seq<u8>,
    cursor: nat,
) -> Seq<RegistryEntry>
    decreases cursor,
{
    if cursor == 0 {
        seq![
            RegistryEntry {
                hash: entry_hash(v, code_len, entry_pc),
                target_pc: clamped_entry_pc(code_len, entry_pc) as usize,
            },
        ]
    } else {
        let prev = registry_after(v, code_len, entry_pc, wl, (cursor - 1) as nat);
        let pc = (cursor - 1) as nat;
        if whitelisted(wl, pc) && pc < instruction_count(code_len) {
            add_entry(prev, version_pc_hash(v, pc), pc as usize)
        } else {
            prev
        }
    }
}

/// The complete call-target table for a request.
pub open spec fn call_registry_spec(
    v: SbpfVersion,
    code_len: nat,
    entry_pc: u64,
    wl: Seq<u8>,
) -> Seq<RegistryEntry> {
    registry_after(v, code_len, entry_pc, wl, wl.len() * 8)
}

/// One step of the table construction, written out.
pub proof fn lemma_registry_after_unfold(
    v: SbpfVersion,
    code_len: nat,
    entry_pc: u64,
    wl: Seq<u8>,
    c: nat,
)
    ensures
        registry_after(v, code_len, entry_pc, wl, c + 1) == (if whitelisted(wl, c) && c
            < instruction_count(code_len) {
            add_entry(
                registry_after(v, code_len, entry_pc, wl, c),
                version_pc_hash(v, c),
                c as usize,
            )
        } else {
            registry_after(v, code_len, entry_pc, wl, c)
        }),
{
    reveal_with_fuel(registry_after, 2);
    assert((c + 1) - 1 == c);
}

impl CallRegistry {
    /// The table is exactly the specified one for its inputs.
    pub open spec fn is_for(
        self,
        v: SbpfVersion,
        code_len: nat,
        entry_pc: u64,
        wl: Seq<u8>,
    ) -> bool {
        self.entries@ == call_registry_spec(v, code_len, entry_pc, wl)
    }
}

fn whitelist_bit(wl: &Vec<u8>, pc: usize) -> (r: bool)
    ensures
        r == whitelisted(wl@, pc as nat),
{
    let byte_idx = pc / 8;
    if byte_idx < wl.len() {
        (wl[byte_idx] & (1u8 << ((pc % 8) as u32))) != 0
    } else {
        false
    }
}

fn contains_hash_exec(entries: &Vec<RegistryEntry>, h: u32) -> (r: bool)
    ensures
        r == contains_hash(entries@, h),
{
    let mut i: usize = 0;
    while i < entries.len()
        invariant
            i <= entries@.len(),
            forall|j: int| 0 <= j < i ==> (#[trigger] entries@[j]).hash != h,
        decreases entries@.len() - i,
    {
        if entries[i].hash == h {
            return true;
        }
        i = i + 1;
    }
    false
}

/// Builds the call-target table: the clamped entry point under its
/// version-dependent hash, then every whitelisted offset strictly below the
/// instruction count, in offset order, first registration winning.
#[verifier::rlimit(100)]
pub fn build_call_registry(
    code_len: usize,
    entry_pc: u64,
    whitelist: &Vec<u8>,
    version: SbpfVersion,
) -> (r: CallRegistry)
    requires
        whitelist@.len() <= usize::MAX / 8,
    ensures
        r.is_for(version, code_len as nat, entry_pc, whitelist@),
{
    let max_pc = code_len / 8;
    let last = if max_pc == 0 {
        0
    } else {
        max_pc - 1
    };
    let entry = if entry_pc < last as u64 {
        entry_pc as usize
    } else {
        last
    };
    let ehash = if version.has_stricter_elf_headers() {
        entry as u32
    } else {
        entrypoint_hash()
    };
    let mut entries: Vec<RegistryEntry> = Vec::new();
    entries.push(RegistryEntry { hash: ehash, target_pc: entry });
    proof {
        assert(entries@ =~= registry_after(version, code_len as nat, entry_pc, whitelist@, 0));
    }
    let end = whitelist.len() * 8;
    let mut pc: usize = 0;
    while pc < end
        invariant
            end == whitelist@.len() * 8,
            max_pc == code_len / 8,
            pc <= end,
            whitelist@.len() <= usize::MAX / 8,
            entries@ == registry_after(version, code_len as nat, entry_pc, whitelist@, pc as nat),
        decreases end - pc,
    {
        let ghost prev = entries@;
        let hit = whitelist_bit(whitelist, pc);
        if hit && pc < max_pc {
            let h = if version.has_stricter_elf_headers() {
                pc as u32
            } else {
                pc_hash_exec(pc as u32)
            };
            proof {
                assert(h == version_pc_hash(version, pc as nat));
            }
            if !contains_hash_exec(&entries, h) {
                entries.push(RegistryEntry { hash: h, target_pc: pc });
            }
            proof {
                assert(entries@ == add_entry(prev, version_pc_hash(version, pc as nat), pc));
            }
        }
        proof {
            lemma_registry_after_unfold(version, code_len as nat, entry_pc, whitelist@, pc as nat);
            assert(instruction_count(code_len as nat) == max_pc as nat);
            assert((pc as nat) as usize == pc);
            assert((pc + 1) as nat == (pc as nat) + 1);
            assert(entries@ == registry_after(
                version,
                code_len as nat,
                entry_pc,
                whitelist@,
                (pc as nat) + 1,
            ));
        }
        pc = pc + 1;
    }
    CallRegistry { entries }
}

/// Every whitelist-derived entry resolves to an offset strictly inside the
/// program: offsets at or beyond the instruction count are never registered
/// from the whitelist, and each registered one is indeed whitelisted.
pub proof fn lemma_registry_bound_safety(
    v: SbpfVersion,
    code_len: nat,
    entry_pc: u64,
    wl: Seq<u8>,
)
    requires
        wl.len() * 8 <= usize::MAX,
    ensures
        forall|i: int|
            1 <= i < call_registry_spec(v, code_len, entry_pc, wl).len() ==> {
                let e = #[trigger] call_registry_spec(v, code_len, entry_pc, wl)[i];
                e.target_pc < instruction_count(code_len) && whitelisted(wl, e.target_pc as nat)
            },
{
    lemma_registry_after_bound_safety(v, code_len, entry_pc, wl, wl.len() * 8);
}

#[verifier::rlimit(100)]
proof fn lemma_registry_after_bound_safety(
    v: SbpfVersion,
    code_len: nat,
    entry_pc: u64,
    wl: Seq<u8>,
    cursor: nat,
)
    requires
        wl.len() * 8 <= usize::MAX,
    ensures
        registry_after(v, code_len, entry_pc, wl, cursor).len() >= 1,
        forall|i: int|
            1 <= i < registry_after(v, code_len, entry_pc, wl, cursor).len() ==> {
                let e = #[trigger] registry_after(v, code_len, entry_pc, wl, cursor)[i];
                e.target_pc < instruction_count(code_len) && whitelisted(wl, e.target_pc as nat)
            },
    decreases cursor,
{
    if cursor > 0 {
        lemma_registry_after_bound_safety(v, code_len, entry_pc, wl, (cursor - 1) as nat);
        lemma_registry_after_unfold(v, code_len, entry_pc, wl, (cursor - 1) as nat);
        let prev = registry_after(v, code_len, entry_pc, wl, (cursor - 1) as nat);
        let cur = registry_after(v, code_len, entry_pc, wl, cursor);
        let p = (cursor - 1) as nat;
        if whitelisted(wl, p) && p < instruction_count(code_len) && !contains_hash(
            prev,
            version_pc_hash(v, p),
        ) {
            let e = RegistryEntry { hash: version_pc_hash(v, p), target_pc: p as usize };
            assert(p / 8 < wl.len());
            assert(p < wl.len() * 8) by (nonlinear_arith)
                requires
                    p / 8 < wl.len(),
            ;
            assert((p as usize) as nat == p);
            assert(cur == prev.push(e));
            assert forall|i: int| 1 <= i < cur.len() implies {
                let x = #[trigger] cur[i];
                x.target_pc < instruction_count(code_len) && whitelisted(wl, x.target_pc as nat)
            } by {
                if i < prev.len() {
                    assert(cur[i] == prev[i]);
                } else {
                    assert(cur[i] == e);
                }
            }
        } else {
            assert(cur == prev);
        }
    }
}

/// Every whitelisted offset strictly inside the program can be resolved:
/// its version-dependent hash is present in the table.
pub proof fn lemma_registry_completeness(
    v: SbpfVersion,
    code_len: nat,
    entry_pc: u64,
    wl: Seq<u8>,
    pc: nat,
)
    requires
        whitelisted(wl, pc),
        pc < instruction_count(code_len),
    ensures
        contains_hash(call_registry_spec(v, code_len, entry_pc, wl), version_pc_hash(v, pc)),
{
    assert(pc / 8 < wl.len());
    assert(pc < wl.len() * 8) by (nonlinear_arith)
        requires
            pc / 8 < wl.len(),
    ;
    lemma_registry_after_completeness(v, code_len, entry_pc, wl, pc, wl.len() * 8);
}

proof fn lemma_registry_after_completeness(
    v: SbpfVersion,
    code_len: nat,
    entry_pc: u64,
    wl: Seq<u8>,
    pc: nat,
    cursor: nat,
)
    requires
        whitelisted(wl, pc),
        pc < instruction_count(code_len),
        pc < cursor,
    ensures
        contains_hash(registry_after(v, code_len, entry_pc, wl, cursor), version_pc_hash(v, pc)),
    decreases cursor,
{
    let h = version_pc_hash(v, pc);
    if cursor - 1 == pc {
        let prev = registry_after(v, code_len, entry_pc, wl, (cursor - 1) as nat);
        let cur = registry_after(v, code_len, entry_pc, wl, cursor);
        if contains_hash(prev, h) {
        } else {
            assert(cur == prev.push(RegistryEntry { hash: h, target_pc: pc as usize }));
            assert(cur[cur.len() - 1].hash == h);
        }
    } else {
        lemma_registry_after_completeness(v, code_len, entry_pc, wl, pc, (cursor - 1) as nat);
        let prevs = registry_after(v, code_len, entry_pc, wl, (cursor - 1) as nat);
        let cur = registry_after(v, code_len, entry_pc, wl, cursor);
        let i = choose|i: int| 0 <= i < prevs.len() && (#[trigger] prevs[i]).hash == h;
        assert(cur[i].hash == h);
    }
}

} // verus!
