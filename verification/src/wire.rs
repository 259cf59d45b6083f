//! The request as it travels: its Borsh bytes, and their Base64 text.
//!
//! On the wire a hash is its 32 stored bytes as they are; only the hex
//! display turns them round.

use crate::request::{ProofArgs, ProofArgsView};
use base64::Engine;
use vstd::bytes::{spec_u32_to_le_bytes, spec_u64_to_le_bytes};
use vstd::prelude::*;

verus! {

/// The Borsh bytes of a request whose proof has fewer than 2^32 entries: the
/// two hashes, the index as eight bytes low byte first, the number of proof
/// entries as four bytes low byte first, the entries, and the confirmations
/// as eight bytes low byte first.
pub open spec fn wire_bytes(args: ProofArgsView) -> Seq<u8> {
    args.tx_id + args.tx_block_blockhash + spec_u64_to_le_bytes(args.tx_index)
        + spec_u32_to_le_bytes(args.merkle_proof.len() as u32) + args.merkle_proof.flatten()
        + spec_u64_to_le_bytes(args.confirmations)
}

/// The character that stands for six bits in the standard Base64 alphabet.
pub open spec fn base64_digit(value: int) -> char {
    if value < 26 {
        ((0x41 + value) as u8) as char
    } else if value < 52 {
        ((0x61 + value - 26) as u8) as char
    } else if value < 62 {
        ((0x30 + value - 52) as u8) as char
    } else if value == 62 {
        '+'
    } else {
        '/'
    }
}

/// The standard Base64 text of `data`, padded with `=` to a multiple of four
/// characters.
pub open spec fn base64_of(data: Seq<u8>) -> Seq<char>
    decreases data.len(),
{
    if data.len() == 0 {
        Seq::empty()
    } else if data.len() == 1 {
        seq![base64_digit(data[0] as int / 4), base64_digit(data[0] as int % 4 * 16), '=', '=']
    } else if data.len() == 2 {
        seq![
            base64_digit(data[0] as int / 4),
            base64_digit(data[0] as int % 4 * 16 + data[1] as int / 16),
            base64_digit(data[1] as int % 16 * 4),
            '=',
        ]
    } else {
        seq![
            base64_digit(data[0] as int / 4),
            base64_digit(data[0] as int % 4 * 16 + data[1] as int / 16),
            base64_digit(data[1] as int % 16 * 4 + data[2] as int / 64),
            base64_digit(data[2] as int % 64),
        ] + base64_of(data.skip(3))
    }
}

/// The length of the Base64 text of `count` bytes.
pub open spec fn base64_len(count: nat) -> nat {
    4 * ((count + 2) / 3)
}

#[verifier::external_type_specification]
#[verifier::external_body]
pub struct ExIoError(std::io::Error);

/// `borsh::to_vec` of the five fields of a request, in their order. It fails
/// exactly when the proof has too many entries for their number to be
/// written in four bytes.
#[verifier::external_body]
fn borsh_to_vec(args: &ProofArgs) -> (r: Result<Vec<u8>, std::io::Error>)
    ensures
        match r {
            Ok(bytes) => args.merkle_proof.len() <= u32::MAX && bytes@ == wire_bytes(args@),
            Err(_) => args.merkle_proof.len() > u32::MAX,
        },
{
    let siblings: Vec<[u8; 32]> = args.merkle_proof.iter().map(|hash| hash.0).collect();
    borsh::to_vec(
        &(args.tx_id.0, args.tx_block_blockhash.0, args.tx_index, siblings, args.confirmations),
    )
}

/// `encode` of the `base64` crate's `STANDARD` engine: the padded Base64
/// text of `data`. The crate panics where the length of that text does not
/// fit a `usize`.
#[verifier::external_body]
fn base64_standard(data: &[u8]) -> (text: String)
    requires
        base64_len(data@.len()) <= usize::MAX,
    ensures
        text@ == base64_of(data@),
{
    base64::engine::general_purpose::STANDARD.encode(data)
}

impl ProofArgs {
    /// The request in the binary form that the light client reads. There is
    /// none for a proof of 2^32 entries or more.
    pub fn to_borsh(&self) -> (r: Option<Vec<u8>>)
        ensures
            r is Some <==> self.merkle_proof.len() <= u32::MAX,
            r is Some ==> r.unwrap()@ == wire_bytes(self@),
    {
        match borsh_to_vec(self) {
            Ok(bytes) => Some(bytes),
            Err(_) => None,
        }
    }

    /// The binary form of the request as Base64 text. There is none where
    /// there is no binary form, nor where the text would be longer than a
    /// `usize` can say.
    pub fn to_borsh_base64(&self) -> (r: Option<String>)
        ensures
            r is Some <==> self.merkle_proof.len() <= u32::MAX && base64_len(
                wire_bytes(self@).len(),
            ) <= usize::MAX,
            r is Some ==> r.unwrap()@ == base64_of(wire_bytes(self@)),
    {
        match self.to_borsh() {
            Some(bytes) => {
                let groups = bytes.len() / 3 + if bytes.len() % 3 == 0 {
                    0
                } else {
                    1
                };
                if groups <= usize::MAX / 4 {
                    Some(base64_standard(bytes.as_slice()))
                } else {
                    None
                }
            },
            None => None,
        }
    }
}

} // verus!
