//! The withdrawal transition: once a record's lock has expired, release
//! `withdrawal_amount` to the signer and re-lock the remainder.
use vstd::prelude::*;
use crate::commit::{CommitContext, CommitPhase, CommitUnit};
use crate::error::EscrowError;
use crate::escrow::{held_output, Parties};
use crate::hashing::poseidon_of;
use crate::reconcile::{
    change_error, create_change_output, input_sum, is_change_output, lemma_change_conserves,
    output_sum, InputTokenData, MerkleContext, TokenOutput,
};
use crate::timelock::{
    build_record, derive_new_lock, is_time_lock_account, lock_slot, record_bytes,
    time_lock_account, CompressedAccount,
};

verus! {

/// The existing time-lock record a withdrawal consumes, and the lock that
/// replaces it.
#[derive(Clone, Copy, Debug)]
pub struct PackedInputRecord {
    /// The slot the existing record locks until.
    pub old_lock_up_time: u64,
    /// How long the remainder stays locked from now on.
    pub new_lock_up_time: u64,
    pub address: [u8; 32],
    pub merkle_context: MerkleContext,
    pub root_index: u16,
}

/// Everything an accepted withdrawal hands to its two sub-calls.
#[derive(Clone, Debug)]
pub struct WithdrawalPlan {
    /// The slot at which the successor lock expires.
    pub lock_slot: u64,
    /// The released output to the signer, then the change kept in escrow.
    pub token_outputs: Vec<TokenOutput>,
    /// The root the token inputs are proved against.
    pub token_root_index: u16,
    /// The context as the request gave it.
    pub context: CommitContext,
    /// The flags of the token transfer.
    pub token_context: CommitContext,
    /// The record being nullified, where it sits, and its root.
    pub old_record: CompressedAccount,
    pub old_merkle_context: MerkleContext,
    pub old_root_index: u16,
    /// Its successor at the same address.
    pub new_record: CompressedAccount,
    /// The flags of the record update.
    pub record_context: CommitContext,
}

/// Why a withdrawal is refused, checked in this order: the time gate first.
pub open spec fn withdrawal_error(
    current_slot: u64,
    accounts: Seq<[u8; 32]>,
    parties: Parties,
    withdrawal_amount: u64,
    root_indices: Seq<u16>,
    inputs: Seq<InputTokenData>,
    output_tree_indices: Seq<u8>,
    context: CommitContext,
    record: PackedInputRecord,
) -> Option<EscrowError> {
    if current_slot < record.old_lock_up_time {
        Some(EscrowError::EscrowLocked)
    } else if root_indices.len() < 2 || output_tree_indices.len() < 2 {
        Some(EscrowError::IndexOutOfRange)
    } else if context.cpi_context_account_index >= accounts.len() {
        Some(EscrowError::ContextReferenceMissing)
    } else if lock_slot(current_slot, record.new_lock_up_time) is None {
        Some(EscrowError::ArithmeticOverflow)
    } else if change_error(
        inputs,
        seq![held_output(withdrawal_amount, parties.signer, output_tree_indices[0])],
    ) is Some {
        change_error(
            inputs,
            seq![held_output(withdrawal_amount, parties.signer, output_tree_indices[0])],
        )
    } else if poseidon_of(record_bytes(record.old_lock_up_time)) is None || poseidon_of(
        record_bytes(lock_slot(current_slot, record.new_lock_up_time)->0),
    ) is None {
        Some(EscrowError::HashFailed)
    } else {
        None
    }
}

/// What an accepted withdrawal plans.
pub open spec fn is_withdrawal_plan(
    plan: WithdrawalPlan,
    current_slot: u64,
    parties: Parties,
    withdrawal_amount: u64,
    root_indices: Seq<u16>,
    inputs: Seq<InputTokenData>,
    output_tree_indices: Seq<u8>,
    context: CommitContext,
    record: PackedInputRecord,
) -> bool {
    let slot = plan.lock_slot;
    let released = held_output(withdrawal_amount, parties.signer, output_tree_indices[0]);
    &&& slot == current_slot + record.new_lock_up_time
    &&& plan.token_outputs@.len() == 2
    &&& plan.token_outputs@[0] == released
    &&& is_change_output(
        plan.token_outputs@[1],
        inputs,
        seq![released],
        parties.escrow_authority,
        output_tree_indices[1],
    )
    &&& plan.token_root_index == root_indices[1]
    &&& plan.context == context
    &&& plan.token_context == (CommitContext { set_context: true, ..context })
    &&& plan.record_context == context
    &&& is_time_lock_account(
        plan.old_record,
        parties.program_id,
        record.address@,
        record.old_lock_up_time,
        poseidon_of(record_bytes(record.old_lock_up_time))->0,
    )
    &&& plan.old_merkle_context == record.merkle_context
    &&& plan.old_root_index == root_indices[0]
    &&& is_time_lock_account(
        plan.new_record,
        parties.program_id,
        record.address@,
        slot,
        poseidon_of(record_bytes(slot))->0,
    )
}

/// Plans a withdrawal: refused while `current_slot` is before the record's
/// lock; otherwise releases `withdrawal_amount` to the signer, keeps the rest
/// in escrow, and replaces the record by one locked until
/// `current_slot + new_lock_up_time` at the same address.
pub fn withdraw(
    current_slot: u64,
    accounts: &Vec<[u8; 32]>,
    parties: Parties,
    withdrawal_amount: u64,
    root_indices: &Vec<u16>,
    inputs: &Vec<InputTokenData>,
    output_tree_indices: &Vec<u8>,
    context: CommitContext,
    record: PackedInputRecord,
) -> (r: Result<WithdrawalPlan, EscrowError>)
    ensures
        match withdrawal_error(
            current_slot,
            accounts@,
            parties,
            withdrawal_amount,
            root_indices@,
            inputs@,
            output_tree_indices@,
            context,
            record,
        ) {
            Some(e) => r == Err::<WithdrawalPlan, EscrowError>(e),
            None => r is Ok && is_withdrawal_plan(
                r->Ok_0,
                current_slot,
                parties,
                withdrawal_amount,
                root_indices@,
                inputs@,
                output_tree_indices@,
                context,
                record,
            ),
        },
        current_slot < record.old_lock_up_time ==> r == Err::<WithdrawalPlan, EscrowError>(
            EscrowError::EscrowLocked,
        ),
        r is Ok ==> output_sum(r->Ok_0.token_outputs@) == input_sum(inputs@),
{
    if current_slot < record.old_lock_up_time {
        return Err(EscrowError::EscrowLocked);
    }
    if root_indices.len() < 2 || output_tree_indices.len() < 2 {
        return Err(EscrowError::IndexOutOfRange);
    }
    if context.cpi_context_account_index as usize >= accounts.len() {
        return Err(EscrowError::ContextReferenceMissing);
    }
    let slot = match derive_new_lock(current_slot, record.new_lock_up_time) {
        Ok(s) => s,
        Err(e) => return Err(e),
    };
    let released = TokenOutput {
        amount: withdrawal_amount,
        owner: parties.signer,
        lamports: None,
        merkle_tree_index: output_tree_indices[0],
    };
    let requested = [released];
    assert(requested@ =~= seq![released]);
    let change = match create_change_output(
        inputs,
        requested.as_slice(),
        parties.escrow_authority,
        output_tree_indices[1],
    ) {
        Ok(c) => c,
        Err(e) => return Err(e),
    };
    let (_old_bytes, old_hash) = match build_record(record.old_lock_up_time) {
        Ok(b) => b,
        Err(e) => return Err(e),
    };
    let (_new_bytes, new_hash) = match build_record(slot) {
        Ok(b) => b,
        Err(e) => return Err(e),
    };
    let token_outputs = vec![released, change];
    proof {
        lemma_change_conserves(
            inputs@,
            seq![released],
            change,
            parties.escrow_authority,
            output_tree_indices@[1],
        );
        assert(token_outputs@ =~= seq![released].push(change));
    }
    Ok(WithdrawalPlan {
        lock_slot: slot,
        token_outputs,
        token_root_index: root_indices[1],
        context,
        token_context: CommitContext { set_context: true, ..context },
        old_record: time_lock_account(
            parties.program_id,
            record.address,
            record.old_lock_up_time,
            old_hash,
        ),
        old_merkle_context: record.merkle_context,
        old_root_index: root_indices[0],
        new_record: time_lock_account(parties.program_id, record.address, slot, new_hash),
        record_context: context,
    })
}

/// Applies a withdrawal plan as one unit: the release is staged first, then
/// the record update runs with the verifier's verdict on the proof. Either
/// both become visible or neither does.
pub fn apply_withdrawal(plan: WithdrawalPlan, proof_accepted: bool) -> (r: (
    CommitUnit,
    Result<(), EscrowError>,
))
    ensures
        r.0.wf(),
        proof_accepted ==> {
            &&& r.1 is Ok
            &&& r.0.phase == CommitPhase::Committed
            &&& r.0.visible_tokens@ == plan.token_outputs@
            &&& r.0.visible_custody == 0
            &&& r.0.visible_records@ == seq![plan.new_record]
        },
        !proof_accepted ==> {
            &&& r.1 == Err::<(), EscrowError>(EscrowError::ProofInvalid)
            &&& r.0.phase == CommitPhase::RolledBack
            &&& r.0.nothing_visible()
        },
{
    let mut unit = CommitUnit::open(plan.context);
    unit.mark_pending(plan.token_outputs, 0);
    let outcome = unit.finalize(vec![plan.new_record], proof_accepted);
    (unit, outcome)
}

} // verus!
