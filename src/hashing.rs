//! The outside hash functions the library relies on, each behind one
//! trusted wrapper whose result is named by a spec function.
use vstd::prelude::*;
use light_hasher::Hasher;

verus! {

/// Poseidon (BN254, circom parameters) over one big-endian input;
/// `None` where the hasher rejects the input.
pub uninterp spec fn poseidon_of(data: Seq<u8>) -> Option<Seq<u8>>;

/// Poseidon over two 32-byte inputs; `None` where the hasher rejects them.
pub uninterp spec fn poseidon_pair_of(a: Seq<u8>, b: Seq<u8>) -> Option<Seq<u8>>;

/// SHA-256 of the concatenation of two inputs.
pub uninterp spec fn sha256_pair_of(a: Seq<u8>, b: Seq<u8>) -> Seq<u8>;

/// Keccak-256 of the input truncated into the BN254 field, with the first bump
/// seed that lands below the modulus; `None` where no bump seed does.
pub uninterp spec fn field_hash_of(data: Seq<u8>) -> Option<Seq<u8>>;

/// Relies on light_hasher::Poseidon::hash: a 32-byte digest, or an error
/// where the input is longer than 32 bytes or not below the field modulus.
#[verifier::external_body]
pub(crate) fn poseidon_hash(val: &[u8]) -> (r: Option<[u8; 32]>)
    ensures
        match r {
            Some(h) => poseidon_of(val@) == Some(h@),
            None => poseidon_of(val@) is None,
        },
{
    light_hasher::Poseidon::hash(val).ok()
}

/// Relies on light_hasher::Poseidon::hashv over two slices: a 32-byte digest,
/// or an error where an input is not a field element.
#[verifier::external_body]
pub(crate) fn poseidon_hash_pair(a: &[u8; 32], b: &[u8; 32]) -> (r: Option<[u8; 32]>)
    ensures
        match r {
            Some(h) => poseidon_pair_of(a@, b@) == Some(h@),
            None => poseidon_pair_of(a@, b@) is None,
        },
{
    light_hasher::Poseidon::hashv(&[a.as_slice(), b.as_slice()]).ok()
}

/// Relies on light_hasher::Sha256::hashv over two slices: off-chain it feeds
/// both to SHA-256 in turn and always returns the digest.
#[verifier::external_body]
pub(crate) fn sha256_hash_pair(a: &[u8; 32], b: &[u8; 32]) -> (r: Option<[u8; 32]>)
    ensures
        r is Some,
        r is Some ==> r->0@ == sha256_pair_of(a@, b@),
{
    light_hasher::Sha256::hashv(&[a.as_slice(), b.as_slice()]).ok()
}

/// Relies on light_utils::hash_to_bn254_field_size_be: the truncated Keccak
/// digest of the input, dropping the bump seed that came with it.
#[verifier::external_body]
pub(crate) fn field_hash(data: &[u8]) -> (r: Option<[u8; 32]>)
    ensures
        match r {
            Some(h) => field_hash_of(data@) == Some(h@),
            None => field_hash_of(data@) is None,
        },
{
    light_utils::hash_to_bn254_field_size_be(data).map(|p| p.0)
}

} // verus!
