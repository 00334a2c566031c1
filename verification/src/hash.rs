//! The 32-bit symbol-hash convention used to key call targets.
//!
//! Older program formats identify call targets by a symbol-name-style hash
//! (MurmurHash3, 32-bit, seed 0) of the little-endian encoding of the target
//! offset, and the entry point by the hash of the textual name `entrypoint`.
//! The error reconciler inverts that hash to recover the intended call target
//! from a faulting call instruction's immediate operand.

use vstd::prelude::*;

verus! {

pub const M3_C1: u32 = 0xcc9e2d51;

pub const M3_C2: u32 = 0x1b873593;

pub const M3_BLOCK_ADD: u32 = 0xe6546b64;

pub const M3_FMIX_C1: u32 = 0x85ebca6b;

pub const M3_FMIX_C2: u32 = 0xc2b2ae35;

/// Modular inverse of `M3_FMIX_C2` (mod 2^32).
pub const M3_FMIX_C2_INV: u32 = 0x7ed1b41d;

/// Modular inverse of `M3_FMIX_C1` (mod 2^32).
pub const M3_FMIX_C1_INV: u32 = 0xa5cb9243;

/// Modular inverse of 5 (mod 2^32).
pub const M3_FIVE_INV: u32 = 0xcccccccd;

/// Modular inverse of `M3_C2` (mod 2^32).
pub const M3_C2_INV: u32 = 0x56ed309b;

/// Modular inverse of `M3_C1` (mod 2^32).
pub const M3_C1_INV: u32 = 0xdee13bb1;

pub open spec fn rotl32(x: u32, r: u32) -> u32
    recommends
        0 < r < 32,
{
    (x << r) | (x >> ((32 - r) as u32))
}

pub open spec fn rotr32(x: u32, r: u32) -> u32
    recommends
        0 < r < 32,
{
    (x >> r) | (x << ((32 - r) as u32))
}

pub open spec fn wrap_mul32(x: u32, y: u32) -> u32 {
    ((x * y) % 0x1_0000_0000) as u32
}

pub open spec fn wrap_sub32(x: u32, y: u32) -> u32 {
    if x >= y {
        (x - y) as u32
    } else {
        (x - y + 0x1_0000_0000) as u32
    }
}

/// The per-block key mixing of the hash: multiply, rotate, multiply.
pub open spec fn m3_premix(k: u32) -> u32 {
    wrap_mul32(rotl32(wrap_mul32(k, M3_C1), 15), M3_C2)
}

pub open spec fn wrap_add32(x: u32, y: u32) -> u32 {
    if x + y > 0xffff_ffff {
        (x + y - 0x1_0000_0000) as u32
    } else {
        (x + y) as u32
    }
}

/// One full block round: fold a premixed 4-byte block into the state.
pub open spec fn m3_block_step(h: u32, k: u32) -> u32 {
    wrap_add32(wrap_mul32(rotl32(h ^ m3_premix(k), 13), 5), M3_BLOCK_ADD)
}

/// The final avalanche mixing of the hash state.
pub open spec fn m3_fmix(h: u32) -> u32 {
    let a = h ^ (h >> 16);
    let b = wrap_mul32(a, M3_FMIX_C1);
    let c = b ^ (b >> 13);
    let d = wrap_mul32(c, M3_FMIX_C2);
    d ^ (d >> 16)
}

/// A little-endian 4-byte block as a 32-bit word.
pub open spec fn le_word(b0: u8, b1: u8, b2: u8, b3: u8) -> u32 {
    (b0 as u32) | ((b1 as u32) << 8) | ((b2 as u32) << 16) | ((b3 as u32) << 24)
}

/// Block and tail rounds of the hash over the remaining input.
pub open spec fn m3_rounds(s: Seq<u8>, h: u32) -> u32
    decreases s.len(),
{
    if s.len() >= 4 {
        m3_rounds(s.skip(4), m3_block_step(h, le_word(s[0], s[1], s[2], s[3])))
    } else if s.len() == 3 {
        h ^ m3_premix(le_word(s[0], s[1], s[2], 0))
    } else if s.len() == 2 {
        h ^ m3_premix(le_word(s[0], s[1], 0, 0))
    } else if s.len() == 1 {
        h ^ m3_premix(le_word(s[0], 0, 0, 0))
    } else {
        h
    }
}

/// The 32-bit symbol hash of a byte string (MurmurHash3 with seed 0), as the
/// reference loaders compute it for call-target symbols.
#[verifier::opaque]
pub open spec fn symbol_hash(s: Seq<u8>) -> u32 {
    m3_fmix(m3_rounds(s, 0) ^ ((s.len() % 0x1_0000_0000) as u32))
}

/// The symbol hash of a call-target offset: the hash of the 8 little-endian
/// bytes of the offset, written in closed form (two block rounds, the second
/// over a zero word since offsets fit in 32 bits, then the length and the
/// final mixing).
#[verifier::opaque]
pub open spec fn pc_hash(pc: u32) -> u32 {
    m3_fmix(m3_block_step(m3_block_step(0, pc), 0) ^ 8)
}

/// Undoes the final avalanche mixing of the hash state.
pub open spec fn m3_unfmix(h: u32) -> u32 {
    let a = h ^ (h >> 16);
    let b = wrap_mul32(a, M3_FMIX_C2_INV);
    let c = b ^ (b >> 13) ^ (b >> 26);
    let d = wrap_mul32(c, M3_FMIX_C1_INV);
    d ^ (d >> 16)
}

/// Undoes one block round down to the state with the premixed block
/// still folded in: `m3_unstep(m3_block_step(h, k)) == h ^ m3_premix(k)`.
pub open spec fn m3_unstep(x: u32) -> u32 {
    rotr32(wrap_mul32(wrap_sub32(x, M3_BLOCK_ADD), M3_FIVE_INV), 13)
}

/// Undoes the per-block key mixing.
pub open spec fn m3_unpremix(x: u32) -> u32 {
    wrap_mul32(rotr32(wrap_mul32(x, M3_C2_INV), 15), M3_C1_INV)
}

/// Inverse of `pc_hash`: recovers the call-target offset from a hash, by
/// undoing the final mixing, the length fold and both block rounds.
#[verifier::opaque]
pub open spec fn pc_hash_inverse(h: u32) -> u32 {
    m3_unpremix(m3_unstep(m3_unstep(m3_unfmix(h) ^ 8)))
}

/// Multiplying by a constant and then by its modular inverse (mod 2^32)
/// gives the original value back.
proof fn lemma_mul_inv_cancel(x: u32, c: u32, d: u32)
    requires
        (c * d) % 0x1_0000_0000 == 1,
    ensures
        wrap_mul32(wrap_mul32(x, c), d) == x,
{
    let m = 0x1_0000_0000int;
    vstd::arithmetic::div_mod::lemma_mul_mod_noop_left(x * c, d as int, m);
    let q = (c * d) / m;
    vstd::arithmetic::div_mod::lemma_fundamental_div_mod(c * d, m);
    assert((x * c) * d == m * (q * x) + x) by (nonlinear_arith)
        requires
            c * d == m * q + 1,
            m == 0x1_0000_0000,
    ;
    vstd::arithmetic::div_mod::lemma_mod_multiples_vanish(q * x, x as int, m);
    vstd::arithmetic::div_mod::lemma_small_mod(x as nat, m as nat);
}

proof fn lemma_unfmix(h: u32)
    ensures
        m3_unfmix(m3_fmix(h)) == h,
{
    let a = h ^ (h >> 16);
    let b = wrap_mul32(a, M3_FMIX_C1);
    let c = b ^ (b >> 13);
    let d = wrap_mul32(c, M3_FMIX_C2);
    let x = d ^ (d >> 16);
    assert(x ^ (x >> 16) == d) by (bit_vector)
        requires
            x == d ^ (d >> 16),
    ;
    lemma_mul_inv_cancel(c, M3_FMIX_C2, M3_FMIX_C2_INV);
    assert(c ^ (c >> 13) ^ (c >> 26) == b) by (bit_vector)
        requires
            c == b ^ (b >> 13),
    ;
    lemma_mul_inv_cancel(a, M3_FMIX_C1, M3_FMIX_C1_INV);
    assert(a ^ (a >> 16) == h) by (bit_vector)
        requires
            a == h ^ (h >> 16),
    ;
}

proof fn lemma_unstep(h: u32, k: u32)
    by (bit_vector)
    ensures
        m3_unstep(m3_block_step(h, k)) == h ^ m3_premix(k),
{
}

proof fn lemma_unpremix(k: u32)
    ensures
        m3_unpremix(m3_premix(k)) == k,
{
    let t = wrap_mul32(k, M3_C1);
    let r = rotl32(t, 15);
    lemma_mul_inv_cancel(r, M3_C2, M3_C2_INV);
    assert(rotr32(rotl32(t, 15), 15) == t) by (bit_vector);
    lemma_mul_inv_cancel(k, M3_C1, M3_C1_INV);
}

/// Inverting the offset hash recovers the offset exactly.
pub proof fn lemma_pc_hash_roundtrip(pc: u32)
    ensures
        pc_hash_inverse(pc_hash(pc)) == pc,
{
    reveal(pc_hash);
    reveal(pc_hash_inverse);
    let s1 = m3_block_step(0, pc);
    let s2 = m3_block_step(s1, 0);
    lemma_unfmix(s2 ^ 8);
    assert((s2 ^ 8) ^ 8 == s2) by (bit_vector);
    lemma_unstep(s1, 0);
    assert(m3_premix(0) == 0) by (bit_vector);
    assert(s1 ^ 0 == s1) by (bit_vector);
    lemma_unstep(0, pc);
    assert(0u32 ^ m3_premix(pc) == m3_premix(pc)) by (bit_vector);
    lemma_unpremix(pc);
}

/// The byte string `entrypoint`, whose symbol hash keys the entry point
/// under the older program formats.
pub open spec fn entrypoint_bytes() -> Seq<u8> {
    seq![0x65u8, 0x6eu8, 0x74u8, 0x72u8, 0x79u8, 0x70u8, 0x6fu8, 0x69u8, 0x6eu8, 0x74u8]
}

fn wmul(x: u32, y: u32) -> (r: u32)
    ensures
        r == wrap_mul32(x, y),
{
    x.wrapping_mul(y)
}

fn wadd(x: u32, y: u32) -> (r: u32)
    ensures
        r == wrap_add32(x, y),
{
    x.wrapping_add(y)
}

fn wsub(x: u32, y: u32) -> (r: u32)
    ensures
        r == wrap_sub32(x, y),
{
    x.wrapping_sub(y)
}

fn rotl(x: u32, r: u32) -> (res: u32)
    requires
        0 < r < 32,
    ensures
        res == rotl32(x, r),
{
    (x << r) | (x >> (32 - r))
}

fn rotr(x: u32, r: u32) -> (res: u32)
    requires
        0 < r < 32,
    ensures
        res == rotr32(x, r),
{
    (x >> r) | (x << (32 - r))
}

fn premix(k: u32) -> (r: u32)
    ensures
        r == m3_premix(k),
{
    wmul(rotl(wmul(k, M3_C1), 15), M3_C2)
}

fn block_step(h: u32, k: u32) -> (r: u32)
    ensures
        r == m3_block_step(h, k),
{
    wadd(wmul(rotl(h ^ premix(k), 13), 5), M3_BLOCK_ADD)
}

fn fmix(h: u32) -> (r: u32)
    ensures
        r == m3_fmix(h),
{
    let a = h ^ (h >> 16);
    let b = wmul(a, M3_FMIX_C1);
    let c = b ^ (b >> 13);
    let d = wmul(c, M3_FMIX_C2);
    d ^ (d >> 16)
}

/// The symbol hash of a byte string, as the reference loaders compute it.
pub fn symbol_hash_bytes(s: &[u8]) -> (r: u32)
    requires
        s@.len() < 0x1_0000_0000,
    ensures
        r == symbol_hash(s@),
{
    proof {
        reveal(symbol_hash);
    }
    let n = s.len();
    let mut h: u32 = 0;
    let mut i: usize = 0;
    proof {
        assert(s@.skip(0) =~= s@);
    }
    while n - i >= 4
        invariant
            i <= n,
            n == s@.len() < 0x1_0000_0000,
            m3_rounds(s@, 0) == m3_rounds(s@.skip(i as int), h),
        decreases n - i,
    {
        let k = le_word_exec(s[i], s[i + 1], s[i + 2], s[i + 3]);
        proof {
            let t = s@.skip(i as int);
            assert(t[0] == s@[i as int]);
            assert(t[1] == s@[i + 1]);
            assert(t[2] == s@[i + 2]);
            assert(t[3] == s@[i + 3]);
            assert(t.skip(4) =~= s@.skip(i + 4));
        }
        h = block_step(h, k);
        i = i + 4;
    }
    let tail_len = n - i;
    let t = if tail_len == 3 {
        h ^ premix(le_word_exec(s[i], s[i + 1], s[i + 2], 0))
    } else if tail_len == 2 {
        h ^ premix(le_word_exec(s[i], s[i + 1], 0, 0))
    } else if tail_len == 1 {
        h ^ premix(le_word_exec(s[i], 0, 0, 0))
    } else {
        h
    };
    proof {
        let rest = s@.skip(i as int);
        assert(rest.len() == n - i < 4);
        if rest.len() >= 1 {
            assert(rest[0] == s@[i as int]);
        }
        if rest.len() >= 2 {
            assert(rest[1] == s@[i + 1]);
        }
        if rest.len() >= 3 {
            assert(rest[2] == s@[i + 2]);
        }
    }
    fmix(t ^ (s.len() as u32))
}

fn le_word_exec(b0: u8, b1: u8, b2: u8, b3: u8) -> (r: u32)
    ensures
        r == le_word(b0, b1, b2, b3),
{
    (b0 as u32) | ((b1 as u32) << 8) | ((b2 as u32) << 16) | ((b3 as u32) << 24)
}

/// The symbol hash of the entry-point name.
pub fn entrypoint_hash() -> (r: u32)
    ensures
        r == symbol_hash(entrypoint_bytes()),
{
    let v: Vec<u8> = vec![0x65u8, 0x6e, 0x74, 0x72, 0x79, 0x70, 0x6f, 0x69, 0x6e, 0x74];
    proof {
        assert(v@ =~= entrypoint_bytes());
    }
    symbol_hash_bytes(v.as_slice())
}

/// The symbol hash of a call-target offset, in closed form.
pub fn pc_hash_exec(pc: u32) -> (r: u32)
    ensures
        r == pc_hash(pc),
{
    proof {
        reveal(pc_hash);
    }
    fmix(block_step(block_step(0, pc), 0) ^ 8)
}

/// Recovers the call-target offset a faulting call immediate was hashed from.
pub fn pc_hash_inverse_exec(h: u32) -> (r: u32)
    ensures
        r == pc_hash_inverse(h),
{
    proof {
        reveal(pc_hash_inverse);
    }
    let a = h ^ (h >> 16);
    let b = wmul(a, M3_FMIX_C2_INV);
    let c = b ^ (b >> 13) ^ (b >> 26);
    let d = wmul(c, M3_FMIX_C1_INV);
    let u = d ^ (d >> 16);
    let e = u ^ 8;
    let f = rotr(wmul(wsub(e, M3_BLOCK_ADD), M3_FIVE_INV), 13);
    let g = rotr(wmul(wsub(f, M3_BLOCK_ADD), M3_FIVE_INV), 13);
    wmul(rotr(wmul(g, M3_C2_INV), 15), M3_C1_INV)
}

/// The 8 little-endian bytes of an offset, the string the offset hash is
/// computed over.
pub open spec fn le_bytes8(pc: u32) -> Seq<u8> {
    seq![
        (pc & 0xff) as u8,
        ((pc >> 8) & 0xff) as u8,
        ((pc >> 16) & 0xff) as u8,
        ((pc >> 24) & 0xff) as u8,
        0u8,
        0u8,
        0u8,
        0u8,
    ]
}

/// The closed form `pc_hash` agrees with the symbol hash of the 8
/// little-endian offset bytes.
pub proof fn lemma_pc_hash_is_symbol_hash(pc: u32)
    ensures
        symbol_hash(le_bytes8(pc)) == pc_hash(pc),
{
    reveal(symbol_hash);
    reveal(pc_hash);
    let s = le_bytes8(pc);
    let s4 = s.skip(4);
    let s8 = s4.skip(4);
    assert(s4 =~= seq![0u8, 0u8, 0u8, 0u8]);
    assert(s8 =~= Seq::<u8>::empty());
    assert(le_word(s[0], s[1], s[2], s[3]) == pc) by {
        assert(((pc & 0xff) as u8 as u32) | (((pc >> 8) & 0xff) as u8 as u32) << 8 | (((pc >> 16)
            & 0xff) as u8 as u32) << 16 | (((pc >> 24) & 0xff) as u8 as u32) << 24 == pc)
            by (bit_vector);
    }
    assert(le_word(0, 0, 0, 0) == 0) by (bit_vector);
    let b1 = m3_block_step(0, pc);
    let b2 = m3_block_step(b1, 0);
    assert(m3_rounds(s, 0) == m3_rounds(s4, b1));
    assert(m3_rounds(s4, b1) == m3_rounds(s8, b2));
    assert(m3_rounds(s8, b2) == b2);
    assert((s.len() % 0x1_0000_0000) as u32 == 8u32);
}

} // verus!
