//! The payload of a verification request, and how it is put together.

use crate::hash::{display_of, lemma_parse_display_of, parse_display, H256};
use crate::merkle::{digests, merkle_proof_calculator, merkle_proof_of};
use core::str::FromStr;
use vstd::prelude::*;
use vstd::utf8::encode_utf8;

verus! {

/// What a light client is asked to verify: that the transaction `tx_id` is
/// the leaf at `tx_index` of the block `tx_block_blockhash`, as
/// `merkle_proof` shows, and that the block has `confirmations`
/// confirmations.
#[derive(Clone, Debug, PartialEq, Eq)]
pub struct ProofArgs {
    pub tx_id: H256,
    pub tx_block_blockhash: H256,
    pub tx_index: u64,
    pub merkle_proof: Vec<H256>,
    pub confirmations: u64,
}

/// A request as plain values: each hash by its stored bytes.
pub struct ProofArgsView {
    pub tx_id: Seq<u8>,
    pub tx_block_blockhash: Seq<u8>,
    pub tx_index: u64,
    pub merkle_proof: Seq<Seq<u8>>,
    pub confirmations: u64,
}

impl View for ProofArgs {
    type V = ProofArgsView;

    open spec fn view(&self) -> ProofArgsView {
        ProofArgsView {
            tx_id: self.tx_id@,
            tx_block_blockhash: self.tx_block_blockhash@,
            tx_index: self.tx_index,
            merkle_proof: digests(self.merkle_proof@),
            confirmations: self.confirmations,
        }
    }
}

/// A hex input of a request.
#[derive(Clone, Copy, Debug, PartialEq, Eq, Structural)]
pub enum RequestField {
    /// The transaction hash.
    TxId,
    /// The block hash.
    BlockHash,
    /// The sibling hash at this place of the proof.
    MerkleProof(usize),
}

/// Why a request was not made.
#[derive(Clone, Copy, Debug, PartialEq, Eq, Structural)]
pub enum RequestError {
    /// The named input is not 64 hex digits. It is the first such input, in
    /// the order transaction hash, block hash, proof entries.
    InvalidHexEncoding(RequestField),
}

/// The hash that each text displays, if every one of them displays a hash.
pub open spec fn parse_all(texts: Seq<String>) -> Option<Seq<Seq<u8>>> {
    if forall|i: int|
        0 <= i < texts.len() ==> parse_display(encode_utf8(#[trigger] texts[i]@)) is Some {
        Some(Seq::new(texts.len(), |i: int| parse_display(encode_utf8(texts[i]@)).unwrap()))
    } else {
        None
    }
}

/// The place of the first text that displays no hash.
pub open spec fn is_first_invalid(texts: Seq<String>, place: int) -> bool {
    &&& 0 <= place < texts.len()
    &&& parse_display(encode_utf8(texts[place]@)) is None
    &&& forall|i: int| 0 <= i < place ==> parse_display(encode_utf8(#[trigger] texts[i]@)) is Some
}

/// What a request made of these inputs is: the payload with every hash
/// parsed, or the first input that is not a hash.
pub open spec fn request_of(
    tx_id: Seq<char>,
    tx_block_blockhash: Seq<char>,
    tx_index: u64,
    merkle_proof: Seq<String>,
    confirmations: u64,
    r: Result<ProofArgs, RequestError>,
) -> bool {
    match r {
        Ok(args) => {
            &&& parse_display(encode_utf8(tx_id)) == Some(args.tx_id@)
            &&& parse_display(encode_utf8(tx_block_blockhash)) == Some(args.tx_block_blockhash@)
            &&& parse_all(merkle_proof) == Some(digests(args.merkle_proof@))
            &&& args.tx_index == tx_index
            &&& args.confirmations == confirmations
        },
        Err(RequestError::InvalidHexEncoding(RequestField::TxId)) => parse_display(
            encode_utf8(tx_id),
        ) is None,
        Err(RequestError::InvalidHexEncoding(RequestField::BlockHash)) => {
            &&& parse_display(encode_utf8(tx_id)) is Some
            &&& parse_display(encode_utf8(tx_block_blockhash)) is None
        },
        Err(RequestError::InvalidHexEncoding(RequestField::MerkleProof(place))) => {
            &&& parse_display(encode_utf8(tx_id)) is Some
            &&& parse_display(encode_utf8(tx_block_blockhash)) is Some
            &&& is_first_invalid(merkle_proof, place as int)
        },
    }
}

/// The place of the first hash among `hashes` whose display is `text`.
pub open spec fn is_first_shown(hashes: Seq<H256>, text: Seq<char>, place: int) -> bool {
    &&& 0 <= place < hashes.len()
    &&& display_of(hashes[place]@) == text
    &&& forall|i: int| 0 <= i < place ==> display_of(#[trigger] hashes[i]@) != text
}

impl ProofArgs {
    /// Puts a request together from its inputs as a caller writes them: the
    /// hashes as hex displays. The first input that is not a hash fails the
    /// request.
    pub fn from_hex(
        tx_id: &str,
        tx_block_blockhash: &str,
        tx_index: u64,
        merkle_proof: &Vec<String>,
        confirmations: u64,
    ) -> (r: Result<ProofArgs, RequestError>)
        ensures
            request_of(tx_id@, tx_block_blockhash@, tx_index, merkle_proof@, confirmations, r),
    {
        let id = match H256::from_str(tx_id) {
            Ok(hash) => hash,
            Err(_) => { return Err(RequestError::InvalidHexEncoding(RequestField::TxId)); },
        };
        let block = match H256::from_str(tx_block_blockhash) {
            Ok(hash) => hash,
            Err(_) => { return Err(RequestError::InvalidHexEncoding(RequestField::BlockHash)); },
        };
        let mut siblings: Vec<H256> = Vec::new();
        let mut i: usize = 0;
        while i < merkle_proof.len()
            invariant
                i <= merkle_proof.len(),
                siblings.len() == i,
                parse_display(encode_utf8(tx_id@)) is Some,
                parse_display(encode_utf8(tx_block_blockhash@)) is Some,
                forall|k: int|
                    0 <= k < i ==> parse_display(encode_utf8(#[trigger] merkle_proof@[k]@))
                        == Some(siblings@[k]@),
            decreases merkle_proof.len() - i,
        {
            match H256::from_str(merkle_proof[i].as_str()) {
                Ok(hash) => siblings.push(hash),
                Err(_) => {
                    return Err(RequestError::InvalidHexEncoding(RequestField::MerkleProof(i)));
                },
            }
            i += 1;
        }
        assert(parse_all(merkle_proof@) == Some(digests(siblings@))) by {
            assert(digests(siblings@) =~= parse_all(merkle_proof@).unwrap());
        }
        Ok(
            ProofArgs {
                tx_id: id,
                tx_block_blockhash: block,
                tx_index,
                merkle_proof: siblings,
                confirmations,
            },
        )
    }

    /// Builds the request for the transaction whose display is `tx_id`, out
    /// of the hashes of the block's transactions in block order: it finds the
    /// transaction, and records its place and its authentication path. There
    /// is no request for a transaction that the block does not hold.
    pub fn for_transaction(
        tx_id: &str,
        tx_block_blockhash: H256,
        transactions: Vec<H256>,
        confirmations: u64,
    ) -> (r: Option<ProofArgs>)
        ensures
            match r {
                Some(args) => {
                    &&& is_first_shown(transactions@, tx_id@, args.tx_index as int)
                    &&& args.tx_id@ == transactions@[args.tx_index as int]@
                    &&& args.tx_block_blockhash == tx_block_blockhash
                    &&& digests(args.merkle_proof@) == merkle_proof_of(
                        digests(transactions@),
                        args.tx_index as int,
                    )
                    &&& args.confirmations == confirmations
                },
                None => forall|i: int|
                    0 <= i < transactions.len() ==> display_of(#[trigger] transactions@[i]@)
                        != tx_id@,
            },
    {
        let wanted = tx_id.to_owned();
        let mut transaction_position: usize = 0;
        while transaction_position < transactions.len()
            invariant
                transaction_position <= transactions.len(),
                wanted@ == tx_id@,
                forall|i: int|
                    0 <= i < transaction_position ==> display_of(#[trigger] transactions@[i]@)
                        != tx_id@,
            ensures
                transaction_position < transactions.len() ==> display_of(
                    transactions@[transaction_position as int]@,
                ) == tx_id@,
            decreases transactions.len() - transaction_position,
        {
            if transactions[transaction_position].to_string() == wanted {
                break ;
            }
            transaction_position += 1;
        }
        if transaction_position == transactions.len() {
            return None;
        }
        let found = transactions[transaction_position];
        proof {
            lemma_parse_display_of(found);
        }
        match H256::from_str(tx_id) {
            Ok(hash) => {
                let merkle_proof = merkle_proof_calculator(transactions, transaction_position);
                Some(
                    ProofArgs {
                        tx_id: hash,
                        tx_block_blockhash,
                        tx_index: transaction_position as u64,
                        merkle_proof,
                        confirmations,
                    },
                )
            },
            Err(_) => None,
        }
    }
}

} // verus!
