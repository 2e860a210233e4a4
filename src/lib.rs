//! Time-locked escrow over compressed token state: change reconciliation,
//! lock-record construction, the escrow and withdrawal transitions, the
//! two-phase commit unit that applies them, and the zero-subtree hashes of
//! the Merkle trees that hold the commitments.
pub mod commit;
pub mod error;
pub mod escrow;
pub mod hashing;
pub mod hex;
pub mod reconcile;
pub mod timelock;
pub mod withdrawal;
pub mod zero_bytes;
