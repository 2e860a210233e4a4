//! The escrow transition: lock `escrow_amount` under a new time-lock record.
use vstd::prelude::*;
use crate::commit::{CommitContext, CommitPhase, CommitUnit};
use crate::error::EscrowError;
use crate::hashing::{field_hash_of, poseidon_of};
use crate::reconcile::{
    change_error, create_change_output, input_sum, is_change_output, lemma_change_conserves,
    output_sum, InputTokenData, TokenOutput,
};
use crate::timelock::{
    build_record, derive_address, derive_new_lock, is_time_lock_account, lock_slot, record_bytes,
    time_lock_account, CompressedAccount,
};

verus! {

/// Where the new record's address comes from: a seed, and packed indices of
/// the address tree, its queue and the root it is proved against.
#[derive(Clone, Copy, Debug)]
pub struct NewAddressParams {
    pub seed: [u8; 32],
    pub address_queue_account_index: u8,
    pub address_merkle_tree_account_index: u8,
    pub address_merkle_tree_root_index: u16,
}

/// The identities a transition acts between.
#[derive(Clone, Copy, Debug)]
pub struct Parties {
    /// Who signs the request and owns the value outside the escrow.
    pub signer: [u8; 32],
    /// The custodial identity that holds the locked value.
    pub escrow_authority: [u8; 32],
    /// The program that owns the time-lock records.
    pub program_id: [u8; 32],
}

/// Everything an accepted escrow request hands to its two sub-calls.
#[derive(Clone, Debug)]
pub struct EscrowPlan {
    /// The slot at which the new lock expires.
    pub lock_slot: u64,
    /// The escrowed output, then the change back to the signer.
    pub token_outputs: Vec<TokenOutput>,
    /// What moves into custody.
    pub custody_amount: u64,
    /// The context as the request gave it.
    pub context: CommitContext,
    /// The flags of the token transfer.
    pub token_context: CommitContext,
    /// The new time-lock record.
    pub record: CompressedAccount,
    pub new_address_params: NewAddressParams,
    /// The flags of the record update.
    pub record_context: CommitContext,
}

/// The requested output of a transition: `amount` to `owner`, in the tree at
/// `merkle_tree_index`.
pub open spec fn held_output(amount: u64, owner: [u8; 32], merkle_tree_index: u8) -> TokenOutput {
    TokenOutput { amount, owner, lamports: None, merkle_tree_index }
}

/// Why an escrow request is refused, checked in this order.
pub open spec fn escrow_error(
    current_slot: u64,
    accounts: Seq<[u8; 32]>,
    parties: Parties,
    lock_up_time: u64,
    escrow_amount: u64,
    inputs: Seq<InputTokenData>,
    output_tree_indices: Seq<u8>,
    new_address_params: NewAddressParams,
    context: CommitContext,
) -> Option<EscrowError> {
    if output_tree_indices.len() < 2 || new_address_params.address_merkle_tree_account_index
        >= accounts.len() {
        Some(EscrowError::IndexOutOfRange)
    } else if context.cpi_context_account_index >= accounts.len() {
        Some(EscrowError::ContextReferenceMissing)
    } else if lock_slot(current_slot, lock_up_time) is None {
        Some(EscrowError::ArithmeticOverflow)
    } else if change_error(
        inputs,
        seq![held_output(escrow_amount, parties.escrow_authority, output_tree_indices[0])],
    ) is Some {
        change_error(
            inputs,
            seq![held_output(escrow_amount, parties.escrow_authority, output_tree_indices[0])],
        )
    } else if poseidon_of(record_bytes(lock_slot(current_slot, lock_up_time)->0)) is None {
        Some(EscrowError::HashFailed)
    } else if field_hash_of(
        accounts[new_address_params.address_merkle_tree_account_index as int]@
            + new_address_params.seed@,
    ) is None {
        Some(EscrowError::InvalidAddress)
    } else {
        None
    }
}

/// What an accepted escrow request plans.
pub open spec fn is_escrow_plan(
    plan: EscrowPlan,
    current_slot: u64,
    accounts: Seq<[u8; 32]>,
    parties: Parties,
    lock_up_time: u64,
    escrow_amount: u64,
    inputs: Seq<InputTokenData>,
    output_tree_indices: Seq<u8>,
    new_address_params: NewAddressParams,
    context: CommitContext,
) -> bool {
    let slot = plan.lock_slot;
    let held = held_output(escrow_amount, parties.escrow_authority, output_tree_indices[0]);
    let tree = accounts[new_address_params.address_merkle_tree_account_index as int];
    &&& slot == current_slot + lock_up_time
    &&& plan.token_outputs@.len() == 2
    &&& plan.token_outputs@[0] == held
    &&& is_change_output(
        plan.token_outputs@[1],
        inputs,
        seq![held],
        parties.signer,
        output_tree_indices[1],
    )
    &&& plan.custody_amount == escrow_amount
    &&& plan.context == context
    &&& plan.token_context == (CommitContext { set_context: true, ..context })
    &&& plan.record_context == (CommitContext { first_set_context: false, ..context })
    &&& plan.new_address_params == new_address_params
    &&& is_time_lock_account(
        plan.record,
        parties.program_id,
        field_hash_of(tree@ + new_address_params.seed@)->0,
        slot,
        poseidon_of(record_bytes(slot))->0,
    )
}

/// Plans the locking of `escrow_amount` until `current_slot + lock_up_time`:
/// the escrowed output and the change, the new record at the address derived
/// from the selected tree and the seed, and the flags of both sub-calls.
pub fn escrow(
    current_slot: u64,
    accounts: &Vec<[u8; 32]>,
    parties: Parties,
    lock_up_time: u64,
    escrow_amount: u64,
    inputs: &Vec<InputTokenData>,
    output_tree_indices: &Vec<u8>,
    new_address_params: NewAddressParams,
    context: CommitContext,
) -> (r: Result<EscrowPlan, EscrowError>)
    ensures
        match escrow_error(
            current_slot,
            accounts@,
            parties,
            lock_up_time,
            escrow_amount,
            inputs@,
            output_tree_indices@,
            new_address_params,
            context,
        ) {
            Some(e) => r == Err::<EscrowPlan, EscrowError>(e),
            None => r is Ok && is_escrow_plan(
                r->Ok_0,
                current_slot,
                accounts@,
                parties,
                lock_up_time,
                escrow_amount,
                inputs@,
                output_tree_indices@,
                new_address_params,
                context,
            ),
        },
        r is Ok ==> output_sum(r->Ok_0.token_outputs@) == input_sum(inputs@),
{
    if output_tree_indices.len() < 2 || new_address_params.address_merkle_tree_account_index
        as usize >= accounts.len() {
        return Err(EscrowError::IndexOutOfRange);
    }
    if context.cpi_context_account_index as usize >= accounts.len() {
        return Err(EscrowError::ContextReferenceMissing);
    }
    let slot = match derive_new_lock(current_slot, lock_up_time) {
        Ok(s) => s,
        Err(e) => return Err(e),
    };
    let held = TokenOutput {
        amount: escrow_amount,
        owner: parties.escrow_authority,
        lamports: None,
        merkle_tree_index: output_tree_indices[0],
    };
    let requested = [held];
    assert(requested@ =~= seq![held]);
    let change = match create_change_output(
        inputs,
        requested.as_slice(),
        parties.signer,
        output_tree_indices[1],
    ) {
        Ok(c) => c,
        Err(e) => return Err(e),
    };
    let (_bytes, data_hash) = match build_record(slot) {
        Ok(b) => b,
        Err(e) => return Err(e),
    };
    let tree = &accounts[new_address_params.address_merkle_tree_account_index as usize];
    let address = match derive_address(tree, &new_address_params.seed) {
        Ok(a) => a,
        Err(e) => return Err(e),
    };
    let token_outputs = vec![held, change];
    proof {
        lemma_change_conserves(inputs@, seq![held], change, parties.signer, output_tree_indices@[1]);
        assert(token_outputs@ =~= seq![held].push(change));
    }
    Ok(EscrowPlan {
        lock_slot: slot,
        token_outputs,
        custody_amount: escrow_amount,
        context,
        token_context: CommitContext { set_context: true, ..context },
        record: time_lock_account(parties.program_id, address, slot, data_hash),
        new_address_params,
        record_context: CommitContext { first_set_context: false, ..context },
    })
}

/// Applies an escrow plan as one unit: the transfer into custody is staged
/// first, then the record update runs with the verifier's verdict on the
/// proof. Either both become visible or neither does.
pub fn apply_escrow(plan: EscrowPlan, proof_accepted: bool) -> (r: (CommitUnit, Result<(), EscrowError>))
    ensures
        r.0.wf(),
        proof_accepted ==> {
            &&& r.1 is Ok
            &&& r.0.phase == CommitPhase::Committed
            &&& r.0.visible_tokens@ == plan.token_outputs@
            &&& r.0.visible_custody == plan.custody_amount
            &&& r.0.visible_records@ == seq![plan.record]
        },
        !proof_accepted ==> {
            &&& r.1 == Err::<(), EscrowError>(EscrowError::ProofInvalid)
            &&& r.0.phase == CommitPhase::RolledBack
            &&& r.0.nothing_visible()
        },
{
    let mut unit = CommitUnit::open(plan.context);
    unit.mark_pending(plan.token_outputs, plan.custody_amount);
    let outcome = unit.finalize(vec![plan.record], proof_accepted);
    (unit, outcome)
}

} // verus!
