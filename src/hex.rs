//! Hexadecimal rendering and base58 decoding of 32-byte hashes.
use vstd::prelude::*;

verus! {

/// The lowercase hexadecimal digit of a nibble.
pub open spec fn hex_char(n: u8) -> char
    recommends
        n < 16,
{
    if n < 10 {
        (('0' as u8) + n) as char
    } else {
        (('a' as u8) + (n - 10)) as char
    }
}

/// Two lowercase hexadecimal digits per byte, most significant nibble first.
pub open spec fn hex_of(bytes: Seq<u8>) -> Seq<char>
    decreases bytes.len(),
{
    if bytes.len() == 0 {
        Seq::empty()
    } else {
        hex_of(bytes.drop_last()).push(hex_char(bytes.last() / 16)).push(
            hex_char(bytes.last() % 16),
        )
    }
}

/// What base58 decoding makes of a string: `None` where it is not valid base58.
pub uninterp spec fn bs58_decoded(s: Seq<char>) -> Option<Seq<u8>>;

/// Relies on String::push: the character is appended at the end.
#[verifier::external_body]
fn push_char(s: &mut String, c: char)
    ensures
        final(s)@ == old(s)@.push(c),
{
    s.push(c)
}

/// Relies on bs58::decode(..).into_vec(): the decoded bytes, or an error
/// where the input is not valid base58 in the Bitcoin alphabet.
#[verifier::external_body]
fn bs58_decode(s: &str) -> (r: Option<Vec<u8>>)
    ensures
        match r {
            Some(v) => bs58_decoded(s@) == Some(v@),
            None => bs58_decoded(s@) is None,
        },
{
    bs58::decode(s).into_vec().ok()
}

pub fn hex_digit(n: u8) -> (r: char)
    requires
        n < 16,
    ensures
        r == hex_char(n),
{
    if n < 10 {
        (('0' as u8) + n) as char
    } else {
        (('a' as u8) + (n - 10)) as char
    }
}

/// Renders bytes as lowercase hexadecimal, two digits per byte.
pub fn u8_arr_to_hex_string(arr: &[u8]) -> (r: String)
    ensures
        r@ == hex_of(arr@),
{
    let mut out = String::new();
    let mut i: usize = 0;
    while i < arr.len()
        invariant
            i <= arr@.len(),
            out@ == hex_of(arr@.take(i as int)),
        decreases arr@.len() - i,
    {
        let b = arr[i];
        push_char(&mut out, hex_digit(b / 16));
        push_char(&mut out, hex_digit(b % 16));
        proof {
            let next = arr@.take(i as int + 1);
            assert(next.drop_last() =~= arr@.take(i as int));
            assert(next.last() == b);
        }
        i = i + 1;
    }
    assert(arr@.take(arr@.len() as int) =~= arr@);
    out
}

/// A 32-byte hash from its bytes: `None` unless there are exactly 32.
pub fn hash_from_bytes(bytes: &[u8]) -> (r: Option<[u8; 32]>)
    ensures
        match r {
            Some(h) => bytes@.len() == 32 && h@ == bytes@,
            None => bytes@.len() != 32,
        },
{
    if bytes.len() != 32 {
        return None;
    }
    let mut arr = [0u8; 32];
    let mut i: usize = 0;
    while i < 32
        invariant
            i <= 32,
            bytes@.len() == 32,
            forall|j: int| 0 <= j < i ==> arr@[j] == bytes@[j],
        decreases 32 - i,
    {
        arr[i] = bytes[i];
        i = i + 1;
    }
    assert(arr@ =~= bytes@);
    Some(arr)
}

/// Decodes a base58 string into a 32-byte hash: `None` where the string is
/// not valid base58 or does not decode to exactly 32 bytes.
pub fn decode_hash(account: &str) -> (r: Option<[u8; 32]>)
    ensures
        match bs58_decoded(account@) {
            Some(b) => if b.len() == 32 {
                r is Some && r->0@ == b
            } else {
                r is None
            },
            None => r is None,
        },
{
    match bs58_decode(account) {
        Some(v) => hash_from_bytes(v.as_slice()),
        None => None,
    }
}

} // verus!
