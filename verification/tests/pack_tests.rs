use sbpf_conformance::pack::{
    pack_compute_budget, pack_effects_from_limits, PackEffects, MAX_PACK_PAYLOADS,
};

// Zero instruction payloads: the accounting defaults come back, with no
// rewards.
#[test]
fn empty_payloads_give_accounting_defaults() {
    let e = pack_compute_budget(&vec![]);
    assert_eq!(e.rewards, 0);
    assert_eq!(e.compute_unit_limit, 0);
    assert_eq!(e.heap_sz, 32 * 1024);
    assert_eq!(e.loaded_acct_data_sz, 64 * 1024 * 1024);
}

// A set-compute-unit-limit instruction is honored exactly.
#[test]
fn set_compute_unit_limit_is_honored() {
    // discriminant 2, then the limit as little-endian u32
    let mut payload = vec![2u8];
    payload.extend_from_slice(&1_000_000u32.to_le_bytes());
    let e = pack_compute_budget(&vec![payload]);
    assert_eq!(e.compute_unit_limit, 1_000_000);
    assert_eq!(e.rewards, 0);
}

// A compute-unit price turns into the prioritization fee over the limit.
#[test]
fn compute_unit_price_yields_rewards() {
    let mut limit = vec![2u8];
    limit.extend_from_slice(&1_000_000u32.to_le_bytes());
    let mut price = vec![3u8];
    price.extend_from_slice(&2_000_000u64.to_le_bytes());
    let e = pack_compute_budget(&vec![limit, price]);
    assert_eq!(e.compute_unit_limit, 1_000_000);
    // 2_000_000 micro-units per unit over 1_000_000 units
    assert_eq!(e.rewards, 2_000_000);
}

// Malformed payloads collapse to the all-zero record, indistinguishable
// from "no budget instructions": the reference behavior, kept bug-for-bug.
#[test]
fn malformed_payload_gives_all_zero_record() {
    let e = pack_compute_budget(&vec![vec![2u8]]);
    assert_eq!(
        e,
        PackEffects { compute_unit_limit: 0, rewards: 0, heap_sz: 0, loaded_acct_data_sz: 0 }
    );
}

// The packer accepts its full payload-count allowance without aborting;
// here every payload is malformed, so the record collapses to zeros.
#[test]
fn full_payload_allowance_is_accepted() {
    let payloads: Vec<Vec<u8>> = (0..MAX_PACK_PAYLOADS).map(|_| vec![99u8]).collect();
    let e = pack_compute_budget(&payloads);
    assert_eq!(
        e,
        PackEffects { compute_unit_limit: 0, rewards: 0, heap_sz: 0, loaded_acct_data_sz: 0 }
    );
}

// The record builder passes accounting figures through exactly and zeros
// on failure.
#[test]
fn record_builder_exact() {
    let e = pack_effects_from_limits(Some((7, 8, 9, 10)));
    assert_eq!(
        e,
        PackEffects { compute_unit_limit: 7, rewards: 8, heap_sz: 9, loaded_acct_data_sz: 10 }
    );
    let z = pack_effects_from_limits(None);
    assert_eq!(
        z,
        PackEffects { compute_unit_limit: 0, rewards: 0, heap_sz: 0, loaded_acct_data_sz: 0 }
    );
}
