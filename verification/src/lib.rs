//! Conformance-test executor for a sandboxed register-based virtual machine.
//!
//! Given an execution context (bytecode image, register file, memory layout,
//! compute budget, feature flags), this library plans the VM's address space
//! and call-target registry, seeds the register file, and normalizes the raw
//! run outcome of the external VM engine into an effects record suitable for
//! byte-for-byte comparison against a second, independent VM implementation.

pub mod context;
pub mod driver;
pub mod effects;
pub mod hash;
pub mod layout;
pub mod pack;
pub mod reconcile;
pub mod registry;

use vstd::prelude::*;

verus! {

/// The largest prefix of `s` that still carries every non-zero byte:
/// everything past `trimmed_len(s)` is zero, and the last byte kept
/// (if any) is non-zero.
pub open spec fn trimmed_len(s: Seq<u8>) -> int
    decreases s.len(),
{
    if s.len() == 0 {
        0
    } else if s[s.len() - 1] != 0 {
        s.len() as int
    } else {
        trimmed_len(s.drop_last())
    }
}

/// The prefix kept by trimming never extends past the sequence.
pub proof fn lemma_trimmed_len_bounds(s: Seq<u8>)
    ensures
        0 <= trimmed_len(s) <= s.len(),
    decreases s.len(),
{
    if s.len() != 0 && s[s.len() - 1] == 0 {
        lemma_trimmed_len_bounds(s.drop_last());
    }
}

/// Everything past the kept prefix is zero.
pub proof fn lemma_trimmed_suffix_zero(s: Seq<u8>)
    ensures
        forall|i: int| trimmed_len(s) <= i < s.len() ==> s[i] == 0,
    decreases s.len(),
{
    if s.len() != 0 && s[s.len() - 1] == 0 {
        lemma_trimmed_suffix_zero(s.drop_last());
        lemma_trimmed_len_bounds(s);
        assert forall|i: int| trimmed_len(s) <= i < s.len() implies s[i] == 0 by {
            if i < s.len() - 1 {
                assert(s.drop_last()[i] == s[i]);
            }
        }
    }
}

/// A sequence padded with zeros back up to `n` bytes.
pub open spec fn pad_zeros(s: Seq<u8>, n: nat) -> Seq<u8>
    recommends
        s.len() <= n,
{
    s + Seq::new((n - s.len()) as nat, |i: int| 0u8)
}

/// Trimming the zero suffix and zero-padding back to the original size
/// reproduces the content exactly: nothing but implied zeros is dropped.
pub proof fn lemma_stack_round_trip(s: Seq<u8>)
    ensures
        pad_zeros(s.subrange(0, trimmed_len(s)), s.len()) == s,
{
    lemma_trimmed_len_bounds(s);
    lemma_trimmed_suffix_zero(s);
    assert(pad_zeros(s.subrange(0, trimmed_len(s)), s.len()) =~= s);
}

/// Trailing zero bytes are implied by a region's fixed size, so effects
/// records store stacks with the zero suffix removed.
pub fn vec_rtrim_zeros(v: &[u8]) -> (r: Vec<u8>)
    ensures
        r@ == v@.subrange(0, trimmed_len(v@)),
{
    let mut i: usize = v.len();
    proof {
        assert(v@.subrange(0, v@.len() as int) =~= v@);
    }
    while i > 0 && v[i - 1] == 0
        invariant
            i <= v@.len(),
            trimmed_len(v@) == trimmed_len(v@.subrange(0, i as int)),
        decreases i,
    {
        proof {
            assert(v@.subrange(0, i as int).drop_last() =~= v@.subrange(0, i - 1));
        }
        i = i - 1;
    }
    proof {
        if i > 0 {
            assert(trimmed_len(v@.subrange(0, i as int)) == i);
        }
        assert(trimmed_len(v@) == i);
    }
    let mut r: Vec<u8> = Vec::new();
    let mut j: usize = 0;
    while j < i
        invariant
            j <= i,
            i <= v@.len(),
            r@ == v@.subrange(0, j as int),
        decreases i - j,
    {
        r.push(v[j]);
        proof {
            assert(v@.subrange(0, j + 1) =~= v@.subrange(0, j as int).push(v@[j as int]));
        }
        j = j + 1;
    }
    r
}

} // verus!
