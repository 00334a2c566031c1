use sbpf_conformance::hash::{
    entrypoint_hash, pc_hash_exec, pc_hash_inverse_exec, symbol_hash_bytes,
};
use solana_program_runtime::solana_rbpf::ebpf::hash_symbol_name;

#[test]
fn symbol_hash_matches_reference_on_entrypoint() {
    assert_eq!(entrypoint_hash(), hash_symbol_name(b"entrypoint"));
    assert_eq!(entrypoint_hash(), 0x71e3cf81);
}

#[test]
fn symbol_hash_matches_reference_on_various_strings() {
    let cases: Vec<&[u8]> = vec![
        b"",
        b"a",
        b"ab",
        b"abc",
        b"abcd",
        b"abcde",
        b"sol_log_",
        b"sol_memcpy_",
        b"entrypoint",
        b"\x00\x01\x02\x03\x04\x05\x06\x07\x08",
    ];
    for c in cases {
        assert_eq!(symbol_hash_bytes(c), hash_symbol_name(c), "input {:?}", c);
    }
}

#[test]
fn pc_hash_matches_reference_hash_of_le_bytes() {
    for pc in [0u32, 1, 5, 7, 100, 4096, u32::MAX] {
        assert_eq!(
            pc_hash_exec(pc),
            hash_symbol_name(&u64::to_le_bytes(pc as u64)),
            "pc {}",
            pc
        );
    }
}

#[test]
fn pc_hash_inverse_recovers_offset() {
    for pc in [0u32, 1, 5, 1234, 0xdead_beef, u32::MAX] {
        assert_eq!(pc_hash_inverse_exec(pc_hash_exec(pc)), pc);
    }
}

#[test]
fn pc_hash_concrete_value() {
    assert_eq!(pc_hash_exec(5), 0x67c25ef7);
}
