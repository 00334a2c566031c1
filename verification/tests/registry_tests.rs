use sbpf_conformance::context::SbpfVersion;
use sbpf_conformance::hash::{entrypoint_hash, pc_hash_exec};
use sbpf_conformance::registry::build_call_registry;

#[test]
fn entry_point_always_registered_under_name_hash_for_old_formats() {
    // 2 instruction slots, empty whitelist.
    let r = build_call_registry(16, 1, &vec![], SbpfVersion::V0);
    assert_eq!(r.entries.len(), 1);
    assert_eq!(r.entries[0].hash, entrypoint_hash());
    assert_eq!(r.entries[0].target_pc, 1);
}

#[test]
fn entry_point_registered_under_offset_for_stricter_formats() {
    let r = build_call_registry(16, 1, &vec![], SbpfVersion::V3);
    assert_eq!(r.entries.len(), 1);
    assert_eq!(r.entries[0].hash, 1);
    assert_eq!(r.entries[0].target_pc, 1);
}

#[test]
fn entry_point_clamped_to_last_slot() {
    // 3 slots; requested entry 9 clamps to 2.
    let r = build_call_registry(24, 9, &vec![], SbpfVersion::V0);
    assert_eq!(r.entries[0].target_pc, 2);
    // Empty image: entry clamps to slot 0.
    let r = build_call_registry(0, 9, &vec![], SbpfVersion::V0);
    assert_eq!(r.entries[0].target_pc, 0);
}

#[test]
fn whitelisted_offsets_registered_under_offset_hash() {
    // 4 slots; whitelist bits 1 and 3 set.
    let wl = vec![0b0000_1010u8];
    let r = build_call_registry(32, 0, &wl, SbpfVersion::V0);
    assert_eq!(r.entries.len(), 3);
    assert_eq!(r.entries[1].hash, pc_hash_exec(1));
    assert_eq!(r.entries[1].target_pc, 1);
    assert_eq!(r.entries[2].hash, pc_hash_exec(3));
    assert_eq!(r.entries[2].target_pc, 3);
}

#[test]
fn out_of_bounds_whitelist_bits_never_registered() {
    // 2 slots; bits 0, 1, 2, 5 and 9 set: only 0 and 1 are in bounds.
    let wl = vec![0b0010_0111u8, 0b0000_0010u8];
    let r = build_call_registry(16, 0, &wl, SbpfVersion::V0);
    assert_eq!(r.entries.len(), 3);
    for e in &r.entries[1..] {
        assert!(e.target_pc < 2);
    }
}

#[test]
fn stricter_format_uses_raw_offsets_for_whitelist() {
    let wl = vec![0b0000_0100u8];
    let r = build_call_registry(64, 0, &wl, SbpfVersion::V3);
    assert_eq!(r.entries.len(), 2);
    assert_eq!(r.entries[1].hash, 2);
    assert_eq!(r.entries[1].target_pc, 2);
}

#[test]
fn first_registration_wins_on_hash_collision() {
    // Under the stricter format the entry point at slot 0 collides with
    // whitelist offset 0: the entry registration stays.
    let wl = vec![0b0000_0001u8];
    let r = build_call_registry(16, 0, &wl, SbpfVersion::V3);
    assert_eq!(r.entries.len(), 1);
    assert_eq!(r.entries[0].hash, 0);
    assert_eq!(r.entries[0].target_pc, 0);
}
