//! The 32-byte hash value and its two byte orders.
//!
//! A hash is stored as the digest function wrote it. Its hex text shows the
//! bytes in the opposite order, as Bitcoin tools print transaction and block
//! hashes.

use crate::encoding::{
    hex_decode, hex_encode, is_hex_text, lemma_decode_encode, read_hex, write_hex,
};
use core::cmp::Ordering;
use sha2::Digest;
use vstd::prelude::*;
use vstd::string::StringSliceAdditionalSpecFns;
use vstd::utf8::encode_utf8;

verus! {

/// The SHA-256 digest of `input`, as `sha2::Sha256` computes it.
pub uninterp spec fn sha256_of(input: Seq<u8>) -> Seq<u8>;

/// SHA-256 applied twice.
pub open spec fn double_sha256_of(input: Seq<u8>) -> Seq<u8> {
    sha256_of(sha256_of(input))
}

/// The stored bytes that the 64 hex digits `text` display, if `text` is such.
pub open spec fn parse_display(text: Seq<u8>) -> Option<Seq<u8>> {
    if text.len() == 64 && is_hex_text(text) {
        Some(hex_decode(text).reverse())
    } else {
        None
    }
}

/// The hex text that displays the stored bytes `bytes`.
pub open spec fn display_of(bytes: Seq<u8>) -> Seq<char> {
    hex_encode(bytes.reverse())
}

/// Reading the display of a hash gives the hash back.
pub proof fn lemma_parse_display_of(hash: H256)
    ensures
        parse_display(encode_utf8(display_of(hash@))) == Some(hash@),
{
    lemma_decode_encode(hash@.reverse());
    assert(hash@.reverse().reverse() =~= hash@);
}

/// Display and parsing are inverses on every text that parses: writing the
/// parsed hash out and parsing that text gives the same hash again.
pub proof fn lemma_display_round_trip(text: Seq<u8>)
    requires
        parse_display(text) is Some,
    ensures
        parse_display(encode_utf8(display_of(parse_display(text).unwrap()))) == parse_display(
            text,
        ),
{
    let bytes = parse_display(text).unwrap();
    lemma_decode_encode(bytes.reverse());
    assert(bytes.reverse().reverse() =~= bytes);
}

/// How two byte strings of one length stand to each other: as their bytes
/// do at the first place where they differ.
pub open spec fn order_of(left: Seq<u8>, right: Seq<u8>) -> Ordering
    decreases left.len(),
{
    if left.len() == 0 || right.len() == 0 {
        Ordering::Equal
    } else if left[0] < right[0] {
        Ordering::Less
    } else if left[0] > right[0] {
        Ordering::Greater
    } else {
        order_of(left.drop_first(), right.drop_first())
    }
}

/// Why a text is not a hash.
#[derive(Clone, Copy, Debug, PartialEq, Eq, Structural)]
pub enum HashError {
    /// The text is not 64 hex digits.
    InvalidHexEncoding,
}

/// A 32-byte digest, held in the order in which it was computed.
#[derive(Clone, Copy, Debug, Eq, Ord, Hash)]
pub struct H256(pub [u8; 32]);

impl View for H256 {
    type V = Seq<u8>;

    open spec fn view(&self) -> Seq<u8> {
        self.0@
    }
}

/// `Sha256::digest` of the `sha2` crate: one pass of SHA-256 over `input`.
#[verifier::external_body]
fn sha256(input: &[u8]) -> (digest: [u8; 32])
    ensures
        digest@ == sha256_of(input@),
{
    sha2::Sha256::digest(input).into()
}

/// The bytes of `bytes` in the opposite order.
fn reversed(bytes: &[u8; 32]) -> (out: [u8; 32])
    ensures
        out@ == bytes@.reverse(),
{
    let mut out = [0u8;32];
    let mut i: usize = 0;
    while i < 32
        invariant
            i <= 32,
            forall|k: int| 0 <= k < i ==> out@[k] == bytes@[31 - k],
        decreases 32 - i,
    {
        out[i] = bytes[31 - i];
        i += 1;
    }
    assert(out@ =~= bytes@.reverse());
    out
}

/// Whether two arrays hold the same bytes.
fn same_bytes(left: &[u8; 32], right: &[u8; 32]) -> (same: bool)
    ensures
        same == (left@ == right@),
{
    let mut i: usize = 0;
    while i < 32
        invariant
            i <= 32,
            forall|k: int| 0 <= k < i ==> left@[k] == right@[k],
        decreases 32 - i,
    {
        if left[i] != right[i] {
            return false;
        }
        i += 1;
    }
    assert(left@ =~= right@);
    true
}

impl PartialEq for H256 {
    /// Two hashes are equal when their stored bytes are.
    fn eq(&self, other: &H256) -> (equal: bool) {
        same_bytes(&self.0, &other.0)
    }
}

impl vstd::std_specs::cmp::PartialEqSpecImpl for H256 {
    open spec fn obeys_eq_spec() -> bool {
        true
    }

    open spec fn eq_spec(&self, other: &H256) -> bool {
        self@ == other@
    }
}

/// Compares two arrays byte by byte from the front.
fn compare_bytes(left: &[u8; 32], right: &[u8; 32]) -> (order: Ordering)
    ensures
        order == order_of(left@, right@),
{
    let ghost mut done: int = 0;
    let mut i: usize = 0;
    assert(left@.skip(0) =~= left@ && right@.skip(0) =~= right@);
    while i < 32
        invariant
            i <= 32,
            done == i,
            order_of(left@.skip(done), right@.skip(done)) == order_of(left@, right@),
        decreases 32 - i,
    {
        assert(left@.skip(done)[0] == left@[done] && right@.skip(done)[0] == right@[done]);
        if left[i] < right[i] {
            return Ordering::Less;
        } else if left[i] > right[i] {
            return Ordering::Greater;
        }
        assert(left@.skip(done).drop_first() =~= left@.skip(done + 1));
        assert(right@.skip(done).drop_first() =~= right@.skip(done + 1));
        i += 1;
        proof {
            done = done + 1;
        }
    }
    Ordering::Equal
}

impl PartialOrd for H256 {
    /// Hashes are ordered as their stored bytes are, read from the front.
    fn partial_cmp(&self, other: &H256) -> (order: Option<Ordering>) {
        Some(compare_bytes(&self.0, &other.0))
    }
}

impl vstd::std_specs::cmp::PartialOrdSpecImpl for H256 {
    open spec fn obeys_partial_cmp_spec() -> bool {
        true
    }

    open spec fn partial_cmp_spec(&self, other: &H256) -> Option<Ordering> {
        Some(order_of(self@, other@))
    }
}

/// Applies SHA-256 twice to `input`.
pub fn double_sha256(input: &[u8]) -> (hash: H256)
    ensures
        hash@ == double_sha256_of(input@),
{
    let first = sha256(input);
    H256(sha256(first.as_slice()))
}

impl H256 {
    /// The hex display of the hash: the stored bytes last byte first, two
    /// lower-case digits each.
    pub fn to_string(&self) -> (text: String)
        ensures
            text@ == display_of(self@),
    {
        let shown = reversed(&self.0);
        write_hex(shown.as_slice())
    }
}

impl core::str::FromStr for H256 {
    type Err = HashError;

    /// Reads a hash from its hex display: 64 hex digits of either case, which
    /// show the stored bytes last byte first.
    fn from_str(s: &str) -> (r: Result<H256, HashError>)
        ensures
            match r {
                Ok(hash) => parse_display(s.spec_bytes()) == Some(hash@),
                Err(e) => e == HashError::InvalidHexEncoding && parse_display(s.spec_bytes())
                    is None,
            },
    {
        let mut shown = [0u8;32];
        match read_hex(s.as_bytes(), &mut shown) {
            Ok(_) => Ok(H256(reversed(&shown))),
            Err(_) => Err(HashError::InvalidHexEncoding),
        }
    }
}

} // verus!
