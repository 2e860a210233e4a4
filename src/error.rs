//! The terminal failures of a transition.
use vstd::prelude::*;

verus! {

/// Why a transition was refused. Each refusal happens before any effect.
#[derive(Clone, Copy, Debug, PartialEq, Eq, Structural)]
pub enum EscrowError {
    /// A withdrawal was attempted before the record's unlock slot.
    EscrowLocked,
    /// The requested outputs exceed what the inputs hold.
    InsufficientFunds,
    /// A packed index points past the end of the list it selects from.
    IndexOutOfRange,
    /// The verifier rejected the proof or its public inputs.
    ProofInvalid,
    /// A slot or amount left the range of `u64`.
    ArithmeticOverflow,
    /// The commit context names an account that was not supplied.
    ContextReferenceMissing,
    /// The hash function rejected a record's bytes.
    HashFailed,
    /// No address could be derived from the tree and seed.
    InvalidAddress,
}

} // verus!
