//! The time-lock record: its slot, its canonical bytes, its commitment hash,
//! and the compressed account that carries it.
use vstd::prelude::*;
use crate::error::EscrowError;
use crate::hashing::{field_hash, field_hash_of, poseidon_hash, poseidon_of};

verus! {

/// Discriminator of a time-lock record's payload: `1` as eight little-endian bytes.
pub const TIME_LOCK_DISCRIMINATOR: [u8; 8] = [1, 0, 0, 0, 0, 0, 0, 0];

/// The ledger slot at or after which the locked value may be withdrawn.
#[derive(Clone, Copy, Debug, PartialEq, Eq, Structural)]
pub struct TimeLockRecord {
    pub slot: u64,
}

/// A typed payload with the hash that commits to it.
#[derive(Clone, Debug)]
pub struct CompressedAccountData {
    pub discriminator: [u8; 8],
    pub data: Vec<u8>,
    pub data_hash: [u8; 32],
}

/// A committed record: owner, value, optional derived address and payload.
#[derive(Clone, Debug)]
pub struct CompressedAccount {
    pub owner: [u8; 32],
    pub lamports: u64,
    pub address: Option<[u8; 32]>,
    pub data: Option<CompressedAccountData>,
}

/// The lowest `n` bytes of `x`, least significant first.
pub open spec fn le_bytes(x: nat, n: nat) -> Seq<u8>
    decreases n,
{
    if n == 0 {
        Seq::empty()
    } else {
        seq![(x % 256) as u8] + le_bytes(x / 256, (n - 1) as nat)
    }
}

/// The canonical encoding of a record: its slot as eight little-endian bytes.
pub open spec fn record_bytes(slot: u64) -> Seq<u8> {
    le_bytes(slot as nat, 8)
}

/// The slot at which a lock taken now for `lock_up_time` slots expires,
/// or `None` where it does not fit in a `u64`.
pub open spec fn lock_slot(current_slot: u64, lock_up_time: u64) -> Option<u64> {
    if current_slot + lock_up_time <= u64::MAX {
        Some((current_slot + lock_up_time) as u64)
    } else {
        None
    }
}

/// The payload of a time-lock record for `slot` whose hash is `data_hash`.
pub open spec fn is_time_lock_data(d: CompressedAccountData, slot: u64, data_hash: Seq<u8>) -> bool {
    &&& d.discriminator == TIME_LOCK_DISCRIMINATOR
    &&& d.data@ == record_bytes(slot)
    &&& d.data_hash@ == data_hash
}

/// A value-less record of `owner` at `address` carrying the lock for `slot`.
pub open spec fn is_time_lock_account(
    a: CompressedAccount,
    owner: [u8; 32],
    address: Seq<u8>,
    slot: u64,
    data_hash: Seq<u8>,
) -> bool {
    &&& a.owner == owner
    &&& a.lamports == 0
    &&& a.address is Some
    &&& a.address->0@ == address
    &&& a.data is Some
    &&& is_time_lock_data(a.data->0, slot, data_hash)
}

/// `x` as eight little-endian bytes.
pub fn u64_le_bytes(x: u64) -> (r: Vec<u8>)
    ensures
        r@ == le_bytes(x as nat, 8),
{
    let mut out: Vec<u8> = Vec::new();
    let mut v: u64 = x;
    let mut i: usize = 0;
    while i < 8
        invariant
            i <= 8,
            out@ + le_bytes(v as nat, (8 - i) as nat) == le_bytes(x as nat, 8),
        decreases 8 - i,
    {
        proof {
            let rest = le_bytes(v as nat / 256, (8 - i - 1) as nat);
            assert(le_bytes(v as nat, (8 - i) as nat) == seq![(v as nat % 256) as u8] + rest);
            assert(out@.push((v % 256) as u8) + rest =~= out@ + (seq![(v as nat % 256) as u8]
                + rest));
        }
        out.push((v % 256) as u8);
        v = v / 256;
        i = i + 1;
    }
    proof {
        assert(le_bytes(v as nat, 0) =~= Seq::<u8>::empty());
        assert(out@ + Seq::<u8>::empty() =~= out@);
    }
    out
}

/// The slot at which a lock taken at `current_slot` for `lock_up_time`
/// slots expires, with overflow reported rather than wrapped.
pub fn derive_new_lock(current_slot: u64, lock_up_time: u64) -> (r: Result<u64, EscrowError>)
    ensures
        match lock_slot(current_slot, lock_up_time) {
            Some(s) => r == Ok::<u64, EscrowError>(s),
            None => r == Err::<u64, EscrowError>(EscrowError::ArithmeticOverflow),
        },
{
    match current_slot.checked_add(lock_up_time) {
        Some(s) => Ok(s),
        None => Err(EscrowError::ArithmeticOverflow),
    }
}

/// `r` holds the canonical bytes of the record for `slot` and their
/// Poseidon hash, or the hash function's refusal.
pub open spec fn is_built_record(slot: u64, r: Result<(Vec<u8>, [u8; 32]), EscrowError>) -> bool {
    match poseidon_of(record_bytes(slot)) {
        Some(h) => r is Ok && r->Ok_0.0@ == record_bytes(slot) && r->Ok_0.1@ == h,
        None => r == Err::<(Vec<u8>, [u8; 32]), EscrowError>(EscrowError::HashFailed),
    }
}

/// `r` is the address derived from `tree` and `seed`, or the refusal.
pub open spec fn is_derived_address(tree: [u8; 32], seed: [u8; 32], r: Result<[u8; 32], EscrowError>) -> bool {
    match field_hash_of(tree@ + seed@) {
        Some(a) => r is Ok && r->Ok_0@ == a,
        None => r == Err::<[u8; 32], EscrowError>(EscrowError::InvalidAddress),
    }
}

/// The canonical bytes of the record for `slot` and their Poseidon hash.
pub fn build_record(slot: u64) -> (r: Result<(Vec<u8>, [u8; 32]), EscrowError>)
    ensures
        is_built_record(slot, r),
{
    let bytes = u64_le_bytes(slot);
    match poseidon_hash(bytes.as_slice()) {
        Some(h) => Ok((bytes, h)),
        None => Err(EscrowError::HashFailed),
    }
}

/// The payload of the time-lock record for `slot`, given its hash.
pub fn time_lock_data(slot: u64, data_hash: [u8; 32]) -> (r: CompressedAccountData)
    ensures
        is_time_lock_data(r, slot, data_hash@),
{
    CompressedAccountData {
        discriminator: TIME_LOCK_DISCRIMINATOR,
        data: u64_le_bytes(slot),
        data_hash,
    }
}

/// The value-less record of `owner` at `address` locking until `slot`.
pub fn time_lock_account(owner: [u8; 32], address: [u8; 32], slot: u64, data_hash: [u8; 32]) -> (r:
    CompressedAccount)
    ensures
        is_time_lock_account(r, owner, address@, slot, data_hash@),
{
    CompressedAccount {
        owner,
        lamports: 0,
        address: Some(address),
        data: Some(time_lock_data(slot, data_hash)),
    }
}

/// The address of the entity seeded by `seed` in the tree `tree`: the field
/// hash of the tree's key followed by the seed.
pub fn derive_address(tree: &[u8; 32], seed: &[u8; 32]) -> (r: Result<[u8; 32], EscrowError>)
    ensures
        is_derived_address(*tree, *seed, r),
{
    let mut bytes: Vec<u8> = Vec::new();
    let mut i: usize = 0;
    while i < 32
        invariant
            i <= 32,
            bytes@ =~= tree@.take(i as int),
        decreases 32 - i,
    {
        bytes.push(tree[i]);
        i = i + 1;
    }
    let mut j: usize = 0;
    while j < 32
        invariant
            j <= 32,
            bytes@ =~= tree@ + seed@.take(j as int),
        decreases 32 - j,
    {
        bytes.push(seed[j]);
        j = j + 1;
    }
    assert(seed@.take(32) =~= seed@);
    match field_hash(bytes.as_slice()) {
        Some(a) => Ok(a),
        None => Err(EscrowError::InvalidAddress),
    }
}

/// Building the record of one slot twice gives the same outcome: the same
/// bytes and the same hash, or the same refusal both times.
pub proof fn lemma_build_record_deterministic(
    slot: u64,
    r1: Result<(Vec<u8>, [u8; 32]), EscrowError>,
    r2: Result<(Vec<u8>, [u8; 32]), EscrowError>,
)
    requires
        is_built_record(slot, r1),
        is_built_record(slot, r2),
    ensures
        r1 is Ok <==> r2 is Ok,
        r1 is Ok ==> r1->Ok_0.0@ == r2->Ok_0.0@ && r1->Ok_0.1@ == r2->Ok_0.1@,
        r1 is Err ==> r1 == r2,
{
}

/// Deriving an address from one tree and seed twice gives the same address,
/// or the same refusal both times.
pub proof fn lemma_derive_address_deterministic(
    tree: [u8; 32],
    seed: [u8; 32],
    r1: Result<[u8; 32], EscrowError>,
    r2: Result<[u8; 32], EscrowError>,
)
    requires
        is_derived_address(tree, seed, r1),
        is_derived_address(tree, seed, r2),
    ensures
        r1 is Ok <==> r2 is Ok,
        r1 is Ok ==> r1->Ok_0@ == r2->Ok_0@,
        r1 is Err ==> r1 == r2,
{
}

} // verus!
