//! The hashes of empty subtrees of each height, for either hash function a
//! Merkle tree may use.
use vstd::prelude::*;
use crate::hashing::{poseidon_hash_pair, poseidon_pair_of, sha256_hash_pair, sha256_pair_of};

verus! {

/// The tallest tree whose empty subtrees are tabulated.
pub const MAX_HEIGHT: usize = 32;

/// The hash function a tree uses.
#[derive(Clone, Copy, Debug, PartialEq, Eq, Structural)]
pub enum HashKind {
    Sha256,
    Poseidon,
}

/// What to tabulate, and where the generated table goes, if anywhere.
#[derive(Clone, Debug)]
pub struct Options {
    pub hash: HashKind,
    pub path: Option<String>,
}

/// The hash of two 32-byte children under `kind`; `None` where it fails.
pub open spec fn pair_hash(kind: HashKind, a: Seq<u8>, b: Seq<u8>) -> Option<Seq<u8>> {
    match kind {
        HashKind::Sha256 => Some(sha256_pair_of(a, b)),
        HashKind::Poseidon => poseidon_pair_of(a, b),
    }
}

/// `n` levels above `prev`, each the hash of the level below with itself.
pub open spec fn zero_chain(kind: HashKind, prev: Seq<u8>, n: nat) -> Option<Seq<Seq<u8>>>
    decreases n,
{
    if n == 0 {
        Some(Seq::empty())
    } else {
        match pair_hash(kind, prev, prev) {
            None => None,
            Some(h) => match zero_chain(kind, h, (n - 1) as nat) {
                None => None,
                Some(rest) => Some(seq![h] + rest),
            },
        }
    }
}

/// The chain starts from the hash of two leaves of all ones.
pub open spec fn ones() -> Seq<u8> {
    Seq::new(32, |_i: int| 1u8)
}

/// The table of `MAX_HEIGHT + 1` levels for `kind`, or `None` where a hash fails.
pub open spec fn zero_table(kind: HashKind) -> Option<Seq<Seq<u8>>> {
    match pair_hash(kind, ones(), ones()) {
        None => None,
        Some(start) => zero_chain(kind, start, (MAX_HEIGHT + 1) as nat),
    }
}

pub open spec fn hash_views(v: Seq<[u8; 32]>) -> Seq<Seq<u8>> {
    v.map_values(|a: [u8; 32]| a@)
}

/// The hash of `a` and `b` under `kind`.
pub fn hash_pair(kind: HashKind, a: &[u8; 32], b: &[u8; 32]) -> (r: Option<[u8; 32]>)
    ensures
        match r {
            Some(h) => pair_hash(kind, a@, b@) == Some(h@),
            None => pair_hash(kind, a@, b@) is None,
        },
{
    match kind {
        HashKind::Sha256 => sha256_hash_pair(a, b),
        HashKind::Poseidon => poseidon_hash_pair(a, b),
    }
}

/// The zero-subtree table for `kind`: level `i` is the hash of level `i - 1`
/// with itself, and the level below the first is the hash of two all-ones leaves.
pub fn zero_bytes(kind: HashKind) -> (r: Option<Vec<[u8; 32]>>)
    ensures
        match zero_table(kind) {
            Some(t) => r is Some && hash_views(r->0@) == t,
            None => r is None,
        },
{
    let leaf = [1u8; 32];
    assert(leaf@ =~= ones());
    let mut prev = match hash_pair(kind, &leaf, &leaf) {
        Some(h) => h,
        None => return None,
    };
    let ghost start = prev@;
    let n: usize = MAX_HEIGHT + 1;
    let mut out: Vec<[u8; 32]> = Vec::new();
    let mut i: usize = 0;
    while i < n
        invariant
            n == MAX_HEIGHT + 1,
            i <= n,
            pair_hash(kind, ones(), ones()) == Some(start),
            zero_chain(kind, start, n as nat) == match zero_chain(kind, prev@, (n - i) as nat) {
                None => None,
                Some(rest) => Some(hash_views(out@) + rest),
            },
        decreases n - i,
    {
        let cur = match hash_pair(kind, &prev, &prev) {
            Some(h) => h,
            None => {
                return None;
            },
        };
        proof {
            assert(hash_views(out@.push(cur)) =~= hash_views(out@).push(cur@));
            let tail = zero_chain(kind, cur@, (n - i - 1) as nat);
            if tail is Some {
                assert(hash_views(out@) + (seq![cur@] + tail->0) =~= hash_views(out@).push(cur@)
                    + tail->0);
            }
        }
        out.push(cur);
        prev = cur;
        i = i + 1;
    }
    proof {
        assert(hash_views(out@) + Seq::<Seq<u8>>::empty() =~= hash_views(out@));
    }
    Some(out)
}

} // verus!
