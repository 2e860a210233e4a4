use escrow_lock::commit::{CommitContext, CommitPhase};
use escrow_lock::error::EscrowError;
use escrow_lock::escrow::{apply_escrow, escrow, NewAddressParams, Parties};
use escrow_lock::reconcile::{InputTokenData, MerkleContext};
use escrow_lock::timelock::{build_record, derive_address, TIME_LOCK_DISCRIMINATOR};
use escrow_lock::withdrawal::{apply_withdrawal, withdraw, PackedInputRecord};

const SIGNER: [u8; 32] = [7u8; 32];
const AUTHORITY: [u8; 32] = [9u8; 32];
const PROGRAM: [u8; 32] = [3u8; 32];

fn parties() -> Parties {
    Parties { signer: SIGNER, escrow_authority: AUTHORITY, program_id: PROGRAM }
}

fn accounts() -> Vec<[u8; 32]> {
    vec![[11u8; 32], [12u8; 32], [13u8; 32]]
}

fn input(amount: u64) -> InputTokenData {
    InputTokenData {
        amount,
        delegate_index: None,
        merkle_context: MerkleContext { merkle_tree_index: 0, queue_index: 1, leaf_index: 4 },
        root_index: 0,
    }
}

fn context() -> CommitContext {
    CommitContext { set_context: false, first_set_context: true, cpi_context_account_index: 2 }
}

fn address_params() -> NewAddressParams {
    NewAddressParams {
        seed: [5u8; 32],
        address_queue_account_index: 0,
        address_merkle_tree_account_index: 1,
        address_merkle_tree_root_index: 3,
    }
}

fn lock_record(old_lock_up_time: u64, new_lock_up_time: u64) -> PackedInputRecord {
    PackedInputRecord {
        old_lock_up_time,
        new_lock_up_time,
        address: [21u8; 32],
        merkle_context: MerkleContext { merkle_tree_index: 0, queue_index: 1, leaf_index: 8 },
        root_index: 0,
    }
}

#[test]
fn escrow_splits_inputs_into_escrow_and_change() {
    let plan = escrow(1000, &accounts(), parties(), 25, 40, &vec![input(100)], &vec![0, 1],
        address_params(), context()).unwrap();
    assert_eq!(plan.token_outputs.len(), 2);
    assert_eq!(plan.token_outputs[0].amount, 40);
    assert_eq!(plan.token_outputs[0].owner, AUTHORITY);
    assert_eq!(plan.token_outputs[0].merkle_tree_index, 0);
    assert_eq!(plan.token_outputs[1].amount, 60);
    assert_eq!(plan.token_outputs[1].owner, SIGNER);
    assert_eq!(plan.token_outputs[1].merkle_tree_index, 1);
    assert_eq!(plan.lock_slot, 1025);
    assert_eq!(plan.custody_amount, 40);
}

#[test]
fn escrow_record_commits_to_new_slot_at_derived_address() {
    let plan = escrow(1000, &accounts(), parties(), 25, 40, &vec![input(100)], &vec![0, 1],
        address_params(), context()).unwrap();
    let expected_address = derive_address(&[12u8; 32], &[5u8; 32]).unwrap();
    let (bytes, hash) = build_record(1025).unwrap();
    assert_eq!(plan.record.owner, PROGRAM);
    assert_eq!(plan.record.lamports, 0);
    assert_eq!(plan.record.address, Some(expected_address));
    let data = plan.record.data.unwrap();
    assert_eq!(data.discriminator, TIME_LOCK_DISCRIMINATOR);
    assert_eq!(data.data, bytes);
    assert_eq!(data.data, 1025u64.to_le_bytes().to_vec());
    assert_eq!(data.data_hash, hash);
}

#[test]
fn escrow_sets_context_flags_of_both_sub_calls() {
    let plan = escrow(1000, &accounts(), parties(), 25, 40, &vec![input(100)], &vec![0, 1],
        address_params(), context()).unwrap();
    assert_eq!(plan.token_context,
        CommitContext { set_context: true, first_set_context: true, cpi_context_account_index: 2 });
    assert_eq!(plan.record_context,
        CommitContext { set_context: false, first_set_context: false, cpi_context_account_index: 2 });
}

#[test]
fn escrow_conserves_amounts_over_many_inputs() {
    let inputs = vec![input(10), input(25), input(7), input(58)];
    let plan = escrow(5, &accounts(), parties(), 1, 33, &inputs, &vec![2, 0], address_params(),
        context()).unwrap();
    let out: u64 = plan.token_outputs.iter().map(|o| o.amount).sum();
    assert_eq!(out, 100);
    assert_eq!(plan.token_outputs[1].amount, 67);
}

#[test]
fn escrow_beyond_inputs_is_insufficient_funds() {
    let r = escrow(1000, &accounts(), parties(), 25, 150, &vec![input(100)], &vec![0, 1],
        address_params(), context());
    assert_eq!(r.unwrap_err(), EscrowError::InsufficientFunds);
}

#[test]
fn escrow_of_whole_balance_leaves_zero_change() {
    let plan = escrow(0, &accounts(), parties(), 0, 100, &vec![input(60), input(40)],
        &vec![0, 1], address_params(), context()).unwrap();
    assert_eq!(plan.token_outputs[1].amount, 0);
    assert_eq!(plan.lock_slot, 0);
}

#[test]
fn escrow_lock_overflow_is_arithmetic_error() {
    let r = escrow(u64::MAX - 1, &accounts(), parties(), 2, 40, &vec![input(100)], &vec![0, 1],
        address_params(), context());
    assert_eq!(r.unwrap_err(), EscrowError::ArithmeticOverflow);
}

#[test]
fn escrow_lock_at_largest_slot_is_accepted() {
    let plan = escrow(u64::MAX - 2, &accounts(), parties(), 2, 40, &vec![input(100)],
        &vec![0, 1], address_params(), context()).unwrap();
    assert_eq!(plan.lock_slot, u64::MAX);
}

#[test]
fn escrow_change_beyond_u64_is_arithmetic_error() {
    let r = escrow(1, &accounts(), parties(), 1, 0, &vec![input(u64::MAX), input(u64::MAX)],
        &vec![0, 1], address_params(), context());
    assert_eq!(r.unwrap_err(), EscrowError::ArithmeticOverflow);
}

#[test]
fn escrow_with_one_output_index_is_out_of_range() {
    let r = escrow(1, &accounts(), parties(), 1, 40, &vec![input(100)], &vec![0],
        address_params(), context());
    assert_eq!(r.unwrap_err(), EscrowError::IndexOutOfRange);
}

#[test]
fn escrow_with_unknown_address_tree_is_out_of_range() {
    let mut params = address_params();
    params.address_merkle_tree_account_index = 3;
    let r = escrow(1, &accounts(), parties(), 1, 40, &vec![input(100)], &vec![0, 1], params,
        context());
    assert_eq!(r.unwrap_err(), EscrowError::IndexOutOfRange);
}

#[test]
fn escrow_with_unknown_context_account_is_missing_reference() {
    let mut ctx = context();
    ctx.cpi_context_account_index = 9;
    let r = escrow(1, &accounts(), parties(), 1, 40, &vec![input(100)], &vec![0, 1],
        address_params(), ctx);
    assert_eq!(r.unwrap_err(), EscrowError::ContextReferenceMissing);
}

#[test]
fn escrow_applied_with_accepted_proof_commits_both_effects() {
    let plan = escrow(1000, &accounts(), parties(), 25, 40, &vec![input(100)], &vec![0, 1],
        address_params(), context()).unwrap();
    let (unit, outcome) = apply_escrow(plan, true);
    assert_eq!(outcome, Ok(()));
    assert_eq!(unit.phase, CommitPhase::Committed);
    assert_eq!(unit.visible_custody, 40);
    assert_eq!(unit.visible_tokens.len(), 2);
    assert_eq!(unit.visible_records.len(), 1);
}

#[test]
fn escrow_applied_with_rejected_proof_moves_nothing() {
    let plan = escrow(1000, &accounts(), parties(), 25, 40, &vec![input(100)], &vec![0, 1],
        address_params(), context()).unwrap();
    let (unit, outcome) = apply_escrow(plan, false);
    assert_eq!(outcome, Err(EscrowError::ProofInvalid));
    assert_eq!(unit.phase, CommitPhase::RolledBack);
    assert_eq!(unit.visible_custody, 0);
    assert!(unit.visible_tokens.is_empty());
    assert!(unit.visible_records.is_empty());
    assert!(!unit.context.first_set_context);
}

#[test]
fn withdrawal_before_unlock_slot_is_locked() {
    let plan = escrow(100, &accounts(), parties(), 50, 60, &vec![input(60)], &vec![0, 1],
        address_params(), context()).unwrap();
    assert_eq!(plan.lock_slot, 150);
    let r = withdraw(120, &accounts(), parties(), 30, &vec![0, 1], &vec![input(60)],
        &vec![0, 1], context(), lock_record(plan.lock_slot, 50));
    assert_eq!(r.unwrap_err(), EscrowError::EscrowLocked);
}

#[test]
fn withdrawal_gate_comes_before_every_other_check() {
    let r = withdraw(149, &vec![], parties(), 500, &vec![], &vec![input(1)], &vec![],
        context(), lock_record(150, u64::MAX));
    assert_eq!(r.unwrap_err(), EscrowError::EscrowLocked);
}

#[test]
fn withdrawal_after_unlock_releases_and_relocks_remainder() {
    let plan = withdraw(160, &accounts(), parties(), 30, &vec![4, 6], &vec![input(60)],
        &vec![0, 1], context(), lock_record(150, 50)).unwrap();
    assert_eq!(plan.token_outputs[0].amount, 30);
    assert_eq!(plan.token_outputs[0].owner, SIGNER);
    assert_eq!(plan.token_outputs[1].amount, 30);
    assert_eq!(plan.token_outputs[1].owner, AUTHORITY);
    assert_eq!(plan.lock_slot, 210);
    assert_eq!(plan.old_root_index, 4);
    assert_eq!(plan.token_root_index, 6);
    let new_data = plan.new_record.data.unwrap();
    assert_eq!(new_data.data, 210u64.to_le_bytes().to_vec());
    assert_eq!(new_data.data_hash, build_record(210).unwrap().1);
    let old_data = plan.old_record.data.unwrap();
    assert_eq!(old_data.data, 150u64.to_le_bytes().to_vec());
    assert_eq!(old_data.data_hash, build_record(150).unwrap().1);
    assert_eq!(plan.old_record.address, Some([21u8; 32]));
    assert_eq!(plan.new_record.address, Some([21u8; 32]));
}

#[test]
fn withdrawal_at_unlock_slot_is_allowed() {
    let plan = withdraw(150, &accounts(), parties(), 60, &vec![0, 1], &vec![input(60)],
        &vec![0, 1], context(), lock_record(150, 0)).unwrap();
    assert_eq!(plan.token_outputs[1].amount, 0);
    assert_eq!(plan.lock_slot, 150);
}

#[test]
fn withdrawal_beyond_escrowed_balance_is_insufficient_funds() {
    let r = withdraw(160, &accounts(), parties(), 61, &vec![0, 1], &vec![input(60)],
        &vec![0, 1], context(), lock_record(150, 50));
    assert_eq!(r.unwrap_err(), EscrowError::InsufficientFunds);
}

#[test]
fn withdrawal_with_one_root_index_is_out_of_range() {
    let r = withdraw(160, &accounts(), parties(), 30, &vec![0], &vec![input(60)], &vec![0, 1],
        context(), lock_record(150, 50));
    assert_eq!(r.unwrap_err(), EscrowError::IndexOutOfRange);
}

#[test]
fn withdrawal_relock_overflow_is_arithmetic_error() {
    let r = withdraw(160, &accounts(), parties(), 30, &vec![0, 1], &vec![input(60)],
        &vec![0, 1], context(), lock_record(150, u64::MAX));
    assert_eq!(r.unwrap_err(), EscrowError::ArithmeticOverflow);
}

#[test]
fn withdrawal_with_unknown_context_account_is_missing_reference() {
    let r = withdraw(160, &vec![[1u8; 32]], parties(), 30, &vec![0, 1], &vec![input(60)],
        &vec![0, 1], context(), lock_record(150, 50));
    assert_eq!(r.unwrap_err(), EscrowError::ContextReferenceMissing);
}

#[test]
fn withdrawal_applied_with_rejected_proof_releases_nothing() {
    let plan = withdraw(160, &accounts(), parties(), 30, &vec![0, 1], &vec![input(60)],
        &vec![0, 1], context(), lock_record(150, 50)).unwrap();
    let (unit, outcome) = apply_withdrawal(plan, false);
    assert_eq!(outcome, Err(EscrowError::ProofInvalid));
    assert_eq!(unit.phase, CommitPhase::RolledBack);
    assert!(unit.visible_tokens.is_empty());
    assert!(unit.visible_records.is_empty());
}

#[test]
fn withdrawal_applied_with_accepted_proof_commits_release() {
    let plan = withdraw(160, &accounts(), parties(), 30, &vec![0, 1], &vec![input(60)],
        &vec![0, 1], context(), lock_record(150, 50)).unwrap();
    let (unit, outcome) = apply_withdrawal(plan, true);
    assert_eq!(outcome, Ok(()));
    assert_eq!(unit.phase, CommitPhase::Committed);
    assert_eq!(unit.visible_tokens[0].amount, 30);
    assert_eq!(unit.visible_tokens[1].amount, 30);
    assert_eq!(unit.visible_records.len(), 1);
    assert!(unit.context.set_context);
}
