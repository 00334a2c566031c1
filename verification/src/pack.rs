//! Compute-budget packing.
//!
//! An independent entry point: an ordered sequence of opaque instruction
//! payloads, assumed to target the compute-budget program, is fed through
//! the reference fee/budget accounting, and the returned limits are reshaped
//! into a flat record. An accounting failure deliberately yields the
//! all-zero record instead of an error: callers cannot tell "no budget
//! instructions" from certain malformed inputs, and the reference behavior
//! is kept bug-for-bug.

use solana_runtime_transaction::instructions_processor::process_compute_budget_instructions;
use solana_sdk::{compute_budget, fee::FeeBudgetLimits, feature_set::FeatureSet};
use solana_svm_transaction::instruction::SVMInstruction;
use vstd::prelude::*;

verus! {

/// Most payloads one packing request may carry: each payload is given its
/// own synthetic account-key index, and the accounting indexes a fixed
/// per-packet table of 1232 / 32 account-key slots, aborting beyond it.
pub const MAX_PACK_PAYLOADS: usize = 38;

/// The flat limits record of the packer.
#[derive(Clone, Copy, PartialEq, Eq, Structural, Debug)]
pub struct PackEffects {
    /// Compute-unit limit.
    pub compute_unit_limit: u64,
    /// Prioritization fee; the comparison partner calls the same figure
    /// rewards.
    pub rewards: u64,
    /// Requested heap size in bytes.
    pub heap_sz: u32,
    /// Requested loaded-account-data budget in bytes.
    pub loaded_acct_data_sz: u64,
}

/// What the reference accounting returns for a payload sequence, under the
/// default feature selection: the compute-unit limit and prioritization fee
/// of the fee-domain limits, the sanitized heap size, and the
/// loaded-account-data budget — or nothing, when accounting fails.
pub uninterp spec fn budget_limits_of(datas: Seq<Seq<u8>>) -> Option<(u64, u64, u32, u64)>;

/// The record built from an accounting result: its four figures on
/// success, all zeros on failure.
pub open spec fn pack_record_of(lim: Option<(u64, u64, u32, u64)>) -> PackEffects {
    match lim {
        Some((cu, fee, heap, loaded)) => PackEffects {
            compute_unit_limit: cu,
            rewards: fee,
            heap_sz: heap,
            loaded_acct_data_sz: loaded,
        },
        None => PackEffects {
            compute_unit_limit: 0,
            rewards: 0,
            heap_sz: 0,
            loaded_acct_data_sz: 0,
        },
    }
}

/// Relies on `process_compute_budget_instructions` of
/// `solana_runtime_transaction` and on the compute-budget to fee-budget
/// conversion of `solana_sdk::fee`: each payload becomes one instruction of
/// the compute-budget program with a synthetic id index and no account
/// references, accounting runs under the default feature selection, so the
/// result is a function of the payloads alone. The accounting's program-id
/// filter aborts on an index at or past its per-packet table, so the
/// payload count is capped; with no payloads, every figure is its
/// documented default (no units requested, no fee, the minimum heap frame,
/// the full loaded-account-data budget).
#[verifier::external_body]
fn process_budget_payloads(datas: &Vec<Vec<u8>>) -> (r: Option<(u64, u64, u32, u64)>)
    requires
        datas@.len() <= MAX_PACK_PAYLOADS,
    ensures
        r == budget_limits_of(datas@.map_values(|d: Vec<u8>| d@)),
        datas@.len() == 0 ==> r == Some((0u64, 0u64, 32768u32, 67108864u64)),
{
    let pid = compute_budget::id();
    let instrs = datas.iter().enumerate().map(|(i, d)| {
        (&pid, SVMInstruction { program_id_index: i as u8, data: d.as_slice(), accounts: &[] })
    });
    match process_compute_budget_instructions(instrs, &FeatureSet::default()) {
        Ok(l) => {
            let (heap, loaded): (u32, u32) = (l.updated_heap_bytes, l.loaded_accounts_bytes.into());
            let fee: FeeBudgetLimits = l.into();
            Some((fee.compute_unit_limit, fee.prioritization_fee, heap, loaded as u64))
        },
        Err(_) => None,
    }
}

/// Builds the limits record from an accounting result: exact on success,
/// the all-zero record on failure.
pub fn pack_effects_from_limits(lim: Option<(u64, u64, u32, u64)>) -> (r: PackEffects)
    ensures
        r == pack_record_of(lim),
{
    match lim {
        Some((cu, fee, heap, loaded)) => PackEffects {
            compute_unit_limit: cu,
            rewards: fee,
            heap_sz: heap,
            loaded_acct_data_sz: loaded,
        },
        None => PackEffects {
            compute_unit_limit: 0,
            rewards: 0,
            heap_sz: 0,
            loaded_acct_data_sz: 0,
        },
    }
}

/// Feeds the payloads through the reference accounting and reshapes the
/// result, an accounting failure yielding the all-zero record.
pub fn pack_compute_budget(instr_datas: &Vec<Vec<u8>>) -> (r: PackEffects)
    requires
        instr_datas@.len() <= MAX_PACK_PAYLOADS,
    ensures
        r == pack_record_of(budget_limits_of(instr_datas@.map_values(|d: Vec<u8>| d@))),
        instr_datas@.len() == 0 ==> r == (PackEffects {
            compute_unit_limit: 0,
            rewards: 0,
            heap_sz: 32768,
            loaded_acct_data_sz: 67108864,
        }),
{
    let lim = process_budget_payloads(instr_datas);
    pack_effects_from_limits(lim)
}

/// Packing is deterministic: identical payload sequences give identical
/// limits records.
pub proof fn lemma_pack_deterministic(datas: Seq<Seq<u8>>, r1: PackEffects, r2: PackEffects)
    requires
        r1 == pack_record_of(budget_limits_of(datas)),
        r2 == pack_record_of(budget_limits_of(datas)),
    ensures
        r1 == r2,
{
}

} // verus!
