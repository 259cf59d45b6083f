//! What a request needs of a block: its hash and the ids of its
//! transactions, as the `bitcoin` crate reads them out of the block's bytes.

use crate::hash::H256;
use crate::merkle::digests;
use vstd::prelude::*;

verus! {

#[verifier::external_type_specification]
#[verifier::external_body]
pub struct ExBlock(bitcoin::Block);

#[verifier::external_type_specification]
#[verifier::external_body]
pub struct ExDecodeError(bitcoin::consensus::encode::Error);

/// The ids of the transactions that a block holds, in block order, each by
/// its stored bytes.
pub uninterp spec fn block_txids(block: bitcoin::Block) -> Seq<Seq<u8>>;

/// The hash of a block's header, by its stored bytes.
pub uninterp spec fn block_hash_of(block: bitcoin::Block) -> Seq<u8>;

/// The block that `bytes` are the consensus encoding of, if they are one.
pub uninterp spec fn block_of(bytes: Seq<u8>) -> Option<bitcoin::Block>;

/// `bitcoin::consensus::deserialize` for a block: the block that `bytes`
/// are the consensus encoding of, or an error where they are none.
#[verifier::external_body]
fn deserialize(bytes: &[u8]) -> (r: Result<bitcoin::Block, bitcoin::consensus::encode::Error>)
    ensures
        match r {
            Ok(block) => block_of(bytes@) == Some(block),
            Err(_) => block_of(bytes@) is None,
        },
{
    bitcoin::consensus::deserialize(bytes)
}

/// `Header::block_hash` on the block's header.
#[verifier::external_body]
fn header_hash(block: &bitcoin::Block) -> (hash: H256)
    ensures
        hash@ == block_hash_of(*block),
{
    H256(bitcoin::hashes::Hash::to_byte_array(block.header.block_hash()))
}

/// `Transaction::compute_txid` on each transaction of the block, in block
/// order.
#[verifier::external_body]
fn transaction_ids(block: &bitcoin::Block) -> (ids: Vec<H256>)
    ensures
        digests(ids@) == block_txids(*block),
{
    block.txdata.iter().map(
        |tx| H256(bitcoin::hashes::Hash::to_byte_array(tx.compute_txid())),
    ).collect()
}

/// Why there is no block.
#[derive(Clone, Copy, Debug, PartialEq, Eq, Structural)]
pub enum BlockError {
    /// The bytes are not the encoding of a block.
    Undecodable,
}

/// A block as a request sees it.
#[derive(Clone, Debug, PartialEq, Eq)]
pub struct BlockSummary {
    /// The hash of the block's header.
    pub hash: H256,
    /// The ids of the block's transactions, in block order.
    pub transactions: Vec<H256>,
}

impl BlockSummary {
    /// This is the summary of `block`.
    pub open spec fn is_of(&self, block: bitcoin::Block) -> bool {
        &&& self.hash@ == block_hash_of(block)
        &&& digests(self.transactions@) == block_txids(block)
    }

    /// Reads a block from its consensus encoding: the summary of the block
    /// that the bytes encode, or an error where they encode none.
    pub fn decode(bytes: &[u8]) -> (r: Result<BlockSummary, BlockError>)
        ensures
            match block_of(bytes@) {
                Some(block) => r is Ok && r.unwrap().is_of(block),
                None => r == Err::<BlockSummary, BlockError>(BlockError::Undecodable),
            },
    {
        match deserialize(bytes) {
            Ok(block) => Ok(
                BlockSummary { hash: header_hash(&block), transactions: transaction_ids(&block) },
            ),
            Err(_) => Err(BlockError::Undecodable),
        }
    }
}

} // verus!
