//! Token commitments and the change output that balances a transfer.
use vstd::prelude::*;
use crate::error::EscrowError;

verus! {

/// Packed position of a commitment: indices into the accounts supplied with
/// the request, and the leaf it occupies.
#[derive(Clone, Copy, Debug, PartialEq, Eq, Structural)]
pub struct MerkleContext {
    pub merkle_tree_index: u8,
    pub queue_index: u8,
    pub leaf_index: u32,
}

/// A spendable token commitment and the root under which it is proved.
#[derive(Clone, Copy, Debug, PartialEq, Eq, Structural)]
pub struct InputTokenData {
    pub amount: u64,
    pub delegate_index: Option<u8>,
    pub merkle_context: MerkleContext,
    pub root_index: u16,
}

/// A token commitment to be created: amount, owner and the output tree.
#[derive(Clone, Copy, Debug)]
pub struct TokenOutput {
    pub amount: u64,
    pub owner: [u8; 32],
    pub lamports: Option<u64>,
    pub merkle_tree_index: u8,
}

pub open spec fn input_sum(s: Seq<InputTokenData>) -> int
    decreases s.len(),
{
    if s.len() == 0 {
        0
    } else {
        input_sum(s.drop_last()) + s.last().amount
    }
}

pub open spec fn output_sum(s: Seq<TokenOutput>) -> int
    decreases s.len(),
{
    if s.len() == 0 {
        0
    } else {
        output_sum(s.drop_last()) + s.last().amount
    }
}

/// The output that returns what `inputs` hold beyond `outputs` to `owner`.
pub open spec fn is_change_output(
    c: TokenOutput,
    inputs: Seq<InputTokenData>,
    outputs: Seq<TokenOutput>,
    owner: [u8; 32],
    merkle_tree_index: u8,
) -> bool {
    &&& c.amount == input_sum(inputs) - output_sum(outputs)
    &&& c.owner == owner
    &&& c.lamports is None
    &&& c.merkle_tree_index == merkle_tree_index
}

/// Where the change for `outputs` out of `inputs` cannot be made, the error
/// that says why.
pub open spec fn change_error(inputs: Seq<InputTokenData>, outputs: Seq<TokenOutput>) -> Option<
    EscrowError,
> {
    if output_sum(outputs) > input_sum(inputs) {
        Some(EscrowError::InsufficientFunds)
    } else if input_sum(inputs) - output_sum(outputs) > u64::MAX {
        Some(EscrowError::ArithmeticOverflow)
    } else {
        None
    }
}

proof fn lemma_input_sum_bound(s: Seq<InputTokenData>)
    ensures
        0 <= input_sum(s) <= s.len() * u64::MAX,
    decreases s.len(),
{
    if s.len() > 0 {
        lemma_input_sum_bound(s.drop_last());
        assert((s.len() - 1) * u64::MAX + u64::MAX == s.len() * u64::MAX) by (nonlinear_arith);
    }
}

proof fn lemma_output_sum_bound(s: Seq<TokenOutput>)
    ensures
        0 <= output_sum(s) <= s.len() * u64::MAX,
    decreases s.len(),
{
    if s.len() > 0 {
        lemma_output_sum_bound(s.drop_last());
        assert((s.len() - 1) * u64::MAX + u64::MAX == s.len() * u64::MAX) by (nonlinear_arith);
    }
}

proof fn lemma_len_times_max(n: int)
    requires
        0 <= n <= usize::MAX,
    ensures
        n * u64::MAX <= u128::MAX,
{
    assert(usize::MAX <= u64::MAX);
    assert(n * u64::MAX <= u64::MAX * u64::MAX) by (nonlinear_arith)
        requires
            0 <= n <= u64::MAX,
    ;
}

/// The total amount of the input commitments.
pub fn sum_inputs(inputs: &Vec<InputTokenData>) -> (r: u128)
    ensures
        r == input_sum(inputs@),
{
    let mut total: u128 = 0;
    let mut i: usize = 0;
    while i < inputs.len()
        invariant
            i <= inputs@.len(),
            total == input_sum(inputs@.take(i as int)),
        decreases inputs@.len() - i,
    {
        proof {
            let next = inputs@.take(i as int + 1);
            assert(next.drop_last() =~= inputs@.take(i as int));
            lemma_input_sum_bound(next);
            lemma_len_times_max(next.len() as int);
        }
        total = total + inputs[i].amount as u128;
        i = i + 1;
    }
    assert(inputs@.take(inputs@.len() as int) =~= inputs@);
    total
}

/// The total amount of the output commitments.
pub fn sum_outputs(outputs: &[TokenOutput]) -> (r: u128)
    ensures
        r == output_sum(outputs@),
{
    let mut total: u128 = 0;
    let mut i: usize = 0;
    while i < outputs.len()
        invariant
            i <= outputs@.len(),
            total == output_sum(outputs@.take(i as int)),
        decreases outputs@.len() - i,
    {
        proof {
            let next = outputs@.take(i as int + 1);
            assert(next.drop_last() =~= outputs@.take(i as int));
            lemma_output_sum_bound(next);
            lemma_len_times_max(next.len() as int);
        }
        total = total + outputs[i].amount as u128;
        i = i + 1;
    }
    assert(outputs@.take(outputs@.len() as int) =~= outputs@);
    total
}

/// The change output returning to `owner`, in the tree at
/// `merkle_tree_index`, whatever `inputs` hold beyond `outputs`.
pub fn create_change_output(
    inputs: &Vec<InputTokenData>,
    outputs: &[TokenOutput],
    owner: [u8; 32],
    merkle_tree_index: u8,
) -> (r: Result<TokenOutput, EscrowError>)
    ensures
        match change_error(inputs@, outputs@) {
            Some(e) => r == Err::<TokenOutput, EscrowError>(e),
            None => r is Ok && is_change_output(r->Ok_0, inputs@, outputs@, owner, merkle_tree_index),
        },
{
    let total_in = sum_inputs(inputs);
    let total_out = sum_outputs(outputs);
    if total_out > total_in {
        return Err(EscrowError::InsufficientFunds);
    }
    let change = total_in - total_out;
    if change > u64::MAX as u128 {
        return Err(EscrowError::ArithmeticOverflow);
    }
    Ok(TokenOutput { amount: change as u64, owner, lamports: None, merkle_tree_index })
}

/// Conservation: once the change output is added, the outputs hold exactly
/// what the inputs held.
pub proof fn lemma_change_conserves(
    inputs: Seq<InputTokenData>,
    outputs: Seq<TokenOutput>,
    change: TokenOutput,
    owner: [u8; 32],
    merkle_tree_index: u8,
)
    requires
        is_change_output(change, inputs, outputs, owner, merkle_tree_index),
    ensures
        output_sum(outputs.push(change)) == input_sum(inputs),
{
    assert(outputs.push(change).drop_last() =~= outputs);
}

} // verus!
