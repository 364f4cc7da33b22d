//! Decoding of the fixed-size, null-padded byte arrays in which the native
//! interface reports every name (extension names, device names).
//!
//! A raw name field holds the bytes of the name up to the first zero byte;
//! the rest of the array is padding. A field whose prefix is not a valid
//! UTF-8 encoding decodes to a fixed sentinel string rather than an error:
//! name decoding itself never fails.

use vstd::prelude::*;
use vstd::utf8::valid_utf8;
use vstd::utf8::decode_utf8;
use vstd::string::StringExecFns;

verus! {

/// Number of bytes before the first zero byte (or all of them, when no byte
/// is zero): the length of the name stored in a null-padded field.
pub open spec fn spec_name_len(bytes: Seq<u8>) -> int
    decreases bytes.len(),
{
    if bytes.len() == 0 {
        0
    } else if bytes[0] == 0 {
        0
    } else {
        1 + spec_name_len(bytes.skip(1))
    }
}

/// The bytes of the stored name: everything before the first zero byte.
pub open spec fn name_bytes(bytes: Seq<u8>) -> Seq<u8> {
    bytes.take(spec_name_len(bytes))
}

/// The sentinel that stands in for a name whose bytes are not a valid
/// encoding.
pub open spec fn spec_name_sentinel() -> Seq<char> {
    "ERROR"@
}

/// What a null-padded name field decodes to: its characters when the bytes
/// before the first zero byte are valid UTF-8, and the fixed sentinel
/// otherwise.
pub open spec fn decoded_name(bytes: Seq<u8>) -> Seq<char> {
    if valid_utf8(name_bytes(bytes)) {
        decode_utf8(name_bytes(bytes))
    } else {
        spec_name_sentinel()
    }
}

pub proof fn lemma_name_len_bounds(bytes: Seq<u8>)
    ensures
        0 <= spec_name_len(bytes) <= bytes.len(),
    decreases bytes.len(),
{
    if bytes.len() == 0 {
    } else if bytes[0] == 0 {
    } else {
        lemma_name_len_bounds(bytes.skip(1));
    }
}

/// The name length is the unique position that has no zero byte before it
/// and a zero byte (or the end of the field) at it.
proof fn lemma_name_len_unique(bytes: Seq<u8>, i: int)
    requires
        0 <= i <= bytes.len(),
        forall|j: int| 0 <= j < i ==> bytes[j] != 0,
        i == bytes.len() || bytes[i] == 0,
    ensures
        spec_name_len(bytes) == i,
    decreases bytes.len(),
{
    if bytes.len() == 0 {
    } else if bytes[0] == 0 {
        assert(i == 0);
    } else {
        assert(i >= 1);
        let rest = bytes.skip(1);
        assert(forall|j: int| 0 <= j < i - 1 ==> rest[j] == bytes[j + 1] && bytes[j + 1] != 0);
        assert(i - 1 == rest.len() || rest[i - 1] == 0);
        lemma_name_len_unique(rest, i - 1);
    }
}

/// Relies on `String::from_utf8` from std: it returns `Ok` exactly when the
/// bytes are a valid UTF-8 encoding, and the returned string is the one
/// whose byte encoding is the input.
#[verifier::external_body]
fn string_from_utf8(bytes: Vec<u8>) -> (r: Option<String>)
    ensures
        match r {
            Some(s) => valid_utf8(bytes@) && s@ == decode_utf8(bytes@),
            None => !valid_utf8(bytes@),
        },
{
    String::from_utf8(bytes).ok()
}

/// Length of the name stored in a null-padded field: the index of the first
/// zero byte, or the whole field when no byte is zero.
fn name_len(bytes: &Vec<u8>) -> (n: usize)
    ensures
        n == spec_name_len(bytes@),
{
    let mut i: usize = 0;
    while i < bytes.len() && bytes[i] != 0
        invariant
            0 <= i <= bytes@.len(),
            forall|j: int| 0 <= j < i ==> bytes@[j] != 0,
        decreases bytes@.len() - i,
    {
        i = i + 1;
    }
    proof {
        lemma_name_len_unique(bytes@, i as int);
    }
    i
}

/// Decodes one fixed-size, null-padded name field. The bytes before the
/// first zero byte are decoded as UTF-8; if they are not a valid encoding,
/// the fixed sentinel string is returned instead. Decoding never fails.
pub fn decode_fixed_name(bytes: &Vec<u8>) -> (r: String)
    ensures
        r@ == decoded_name(bytes@),
{
    let n = name_len(bytes);
    proof {
        lemma_name_len_bounds(bytes@);
    }
    let mut prefix: Vec<u8> = Vec::new();
    let mut i: usize = 0;
    while i < n
        invariant
            0 <= i <= n <= bytes@.len(),
            prefix@ == bytes@.take(i as int),
        decreases n - i,
    {
        prefix.push(bytes[i]);
        proof {
            assert(prefix@ =~= bytes@.take(i + 1));
        }
        i = i + 1;
    }
    proof {
        assert(prefix@ =~= name_bytes(bytes@));
    }
    match string_from_utf8(prefix) {
        Some(s) => s,
        None => String::from_str("ERROR"),
    }
}

} // verus!
