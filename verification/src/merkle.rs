//! Merkle authentication paths over a block's transaction hashes.
//!
//! A level of the tree is a sequence of nodes. The level above it pairs the
//! nodes from the left and hashes each pair; a level of odd length has its
//! last node paired with itself.

use crate::hash::{double_sha256, double_sha256_of, H256};
use vstd::arithmetic::power2::{lemma2_to64, lemma_pow2_unfold, pow2};
use vstd::prelude::*;

verus! {

/// The stored bytes of each hash, in order.
pub open spec fn digests(hashes: Seq<H256>) -> Seq<Seq<u8>> {
    Seq::new(hashes.len(), |i: int| hashes[i]@)
}

/// The node above a left and a right node: the double SHA-256 of the left
/// node's bytes followed by the right node's.
pub open spec fn parent_of(left: Seq<u8>, right: Seq<u8>) -> Seq<u8> {
    double_sha256_of(left + right)
}

/// The level as it is paired: with its last node once more at the end when
/// its length is odd.
pub open spec fn padded(level: Seq<Seq<u8>>) -> Seq<Seq<u8>> {
    if level.len() % 2 == 1 {
        level.push(level.last())
    } else {
        level
    }
}

/// The parents of the pairs of `level`, taken from the left.
pub open spec fn paired(level: Seq<Seq<u8>>) -> Seq<Seq<u8>> {
    Seq::new(level.len() / 2, |i: int| parent_of(level[2 * i], level[2 * i + 1]))
}

/// The level above `level`.
pub open spec fn next_level(level: Seq<Seq<u8>>) -> Seq<Seq<u8>> {
    paired(padded(level))
}

/// The node that is paired with the node at `index`.
pub open spec fn sibling_of(level: Seq<Seq<u8>>, index: int) -> Seq<u8> {
    if index % 2 == 1 {
        padded(level)[index - 1]
    } else {
        padded(level)[index + 1]
    }
}

/// The root of the tree over `leaves`. A single leaf is its own root.
pub open spec fn merkle_root_of(leaves: Seq<Seq<u8>>) -> Seq<u8>
    decreases leaves.len(),
{
    if leaves.len() <= 1 {
        leaves[0]
    } else {
        merkle_root_of(next_level(leaves))
    }
}

/// The authentication path of the leaf at `index`: its sibling on each
/// level, from the leaves up to the level below the root.
pub open spec fn merkle_proof_of(leaves: Seq<Seq<u8>>, index: int) -> Seq<Seq<u8>>
    decreases leaves.len(),
{
    if leaves.len() <= 1 {
        Seq::empty()
    } else {
        seq![sibling_of(leaves, index)] + merkle_proof_of(next_level(leaves), index / 2)
    }
}

/// The root that a node at `index` reaches along `proof`: on each level the
/// node is hashed with the recorded sibling, the node of even index on the
/// left.
pub open spec fn root_from_proof(node: Seq<u8>, proof: Seq<Seq<u8>>, index: int) -> Seq<u8>
    decreases proof.len(),
{
    if proof.len() == 0 {
        node
    } else if index % 2 == 1 {
        root_from_proof(parent_of(proof[0], node), proof.drop_first(), index / 2)
    } else {
        root_from_proof(parent_of(node, proof[0]), proof.drop_first(), index / 2)
    }
}

/// The number of levels below the root of a tree over `count` leaves.
pub open spec fn proof_length(count: nat) -> nat
    decreases count,
{
    if count <= 1 {
        0
    } else {
        1 + proof_length((count + 1) / 2)
    }
}

/// The level reached from `leaves` after `depth` steps up.
pub open spec fn level_at(leaves: Seq<Seq<u8>>, depth: nat) -> Seq<Seq<u8>>
    decreases depth,
{
    if depth == 0 {
        leaves
    } else {
        level_at(next_level(leaves), (depth - 1) as nat)
    }
}

/// A proof holds one sibling per level below the root, whichever leaf it is
/// for.
pub proof fn lemma_proof_length(leaves: Seq<Seq<u8>>, index: int)
    ensures
        merkle_proof_of(leaves, index).len() == proof_length(leaves.len()),
    decreases leaves.len(),
{
    if leaves.len() > 1 {
        lemma_proof_length(next_level(leaves), index / 2);
    }
}

/// The length of a proof is the base-2 logarithm of the number of leaves,
/// rounded up: the least `h` with `count <= 2^h`.
pub proof fn lemma_proof_length_is_log2(count: nat)
    requires
        count >= 1,
    ensures
        count <= pow2(proof_length(count)),
        proof_length(count) >= 1 ==> pow2((proof_length(count) - 1) as nat) < count,
        count == 1 ==> proof_length(count) == 0,
    decreases count,
{
    lemma2_to64();
    if count > 1 {
        let above = (count + 1) / 2;
        lemma_proof_length_is_log2(above);
        lemma_pow2_unfold(proof_length(count));
        if proof_length(above) >= 1 {
            lemma_pow2_unfold(proof_length(above));
        }
    }
}

/// Hashing a leaf with the siblings of its proof, each on the side that the
/// leaf's index gives on that level, reaches the root of the tree.
pub proof fn lemma_proof_reaches_root(leaves: Seq<Seq<u8>>, index: int)
    requires
        0 <= index < leaves.len(),
    ensures
        root_from_proof(leaves[index], merkle_proof_of(leaves, index), index) == merkle_root_of(
            leaves,
        ),
    decreases leaves.len(),
{
    if leaves.len() > 1 {
        let proof = merkle_proof_of(leaves, index);
        let above = next_level(leaves);
        assert(proof.drop_first() =~= merkle_proof_of(above, index / 2));
        assert(proof[0] == sibling_of(leaves, index));
        assert(above[index / 2] == parent_of(
            padded(leaves)[2 * (index / 2)],
            padded(leaves)[2 * (index / 2) + 1],
        ));
        lemma_proof_reaches_root(above, index / 2);
    }
}

/// The sibling of a node is a node of the same level. A node that closes a
/// level of odd length is its own sibling; every other node has its
/// neighbour in the pair.
pub proof fn lemma_sibling_in_level(level: Seq<Seq<u8>>, index: int)
    requires
        0 <= index < level.len(),
    ensures
        index % 2 == 1 ==> sibling_of(level, index) == level[index - 1],
        index % 2 == 0 && index + 1 < level.len() ==> sibling_of(level, index) == level[index
            + 1],
        index % 2 == 0 && index + 1 == level.len() ==> sibling_of(level, index) == level[index],
        next_level(level).len() == (level.len() + 1) / 2,
{
}

/// The entry of a proof at `depth` is the sibling, on the level `depth`
/// steps above the leaves, of the node above the leaf.
pub proof fn lemma_proof_entry(leaves: Seq<Seq<u8>>, index: int, depth: nat)
    requires
        0 <= index < leaves.len(),
        depth < proof_length(leaves.len()),
    ensures
        merkle_proof_of(leaves, index).len() == proof_length(leaves.len()),
        0 <= index / (pow2(depth) as int) < level_at(leaves, depth).len(),
        merkle_proof_of(leaves, index)[depth as int] == sibling_of(
            level_at(leaves, depth),
            index / (pow2(depth) as int),
        ),
    decreases depth,
{
    lemma2_to64();
    lemma_proof_length(leaves, index);
    if depth > 0 {
        let above = next_level(leaves);
        let rest = (depth - 1) as nat;
        lemma_proof_entry(above, index / 2, rest);
        lemma_pow2_unfold(depth);
        assert(index / 2 / (pow2(rest) as int) == index / (pow2(depth) as int)) by {
            vstd::arithmetic::power2::lemma_pow2_pos(rest);
            vstd::arithmetic::div_mod::lemma_div_denominator(index, 2, pow2(rest) as int);
        }
    }
}

/// Hashes a left and a right node into the node above them.
pub fn compute_hash(first_tx_hash: &H256, second_tx_hash: &H256) -> (parent: H256)
    ensures
        parent@ == parent_of(first_tx_hash@, second_tx_hash@),
{
    let mut concat_inputs: Vec<u8> = Vec::with_capacity(64);
    concat_inputs.extend_from_slice(first_tx_hash.0.as_slice());
    concat_inputs.extend_from_slice(second_tx_hash.0.as_slice());
    assert(concat_inputs@ =~= first_tx_hash@ + second_tx_hash@);
    double_sha256(concat_inputs.as_slice())
}

/// Hashes the pairs of a level of even length, from the left.
fn hash_pairs(level: &Vec<H256>) -> (parents: Vec<H256>)
    requires
        level.len() % 2 == 0,
    ensures
        digests(parents@) == paired(digests(level@)),
        parents.len() == level.len() / 2,
{
    let ghost nodes = digests(level@);
    let mut new_hashes: Vec<H256> = Vec::new();
    let mut i: usize = 0;
    while i < level.len()
        invariant
            level.len() % 2 == 0,
            i % 2 == 0,
            i <= level.len(),
            nodes == digests(level@),
            new_hashes.len() == i / 2,
            forall|k: int|
                0 <= k < new_hashes.len() ==> (#[trigger] new_hashes@[k])@ == paired(nodes)[k],
        decreases level.len() - i,
    {
        let parent = compute_hash(&level[i], &level[i + 1]);
        assert(parent@ == paired(nodes)[i as int / 2]) by {
            assert(nodes[i as int] == level@[i as int]@);
            assert(nodes[i + 1] == level@[i + 1]@);
        }
        new_hashes.push(parent);
        i += 2;
    }
    assert(digests(new_hashes@) =~= paired(nodes));
    new_hashes
}

/// Why no proof was built, or why a proof does not hold.
#[derive(Clone, Copy, Debug, PartialEq, Eq, Structural)]
pub enum ProofError {
    /// The index names no leaf.
    IndexOutOfRange,
    /// The root that the proof leads to is not the expected one.
    ProofMismatch,
}

/// Appends the last node once more to a level of odd length.
fn pad(level: &mut Vec<H256>)
    requires
        old(level).len() >= 1,
    ensures
        digests(final(level)@) == padded(digests(old(level)@)),
        final(level).len() == old(level).len() + old(level).len() % 2,
{
    if level.len() % 2 == 1 {
        let last = level[level.len() - 1];
        level.push(last);
    }
    assert(digests(level@) =~= padded(digests(old(level)@)));
}

/// Builds the authentication path of the transaction at
/// `transaction_position` among `tx_hashes`: one sibling per level, from the
/// leaves up. A block of one transaction has the empty path.
pub fn merkle_proof_calculator(tx_hashes: Vec<H256>, transaction_position: usize) -> (merkle_proof:
    Vec<H256>)
    requires
        transaction_position < tx_hashes.len(),
    ensures
        digests(merkle_proof@) == merkle_proof_of(
            digests(tx_hashes@),
            transaction_position as int,
        ),
{
    let ghost leaves = digests(tx_hashes@);
    let ghost target = transaction_position as int;
    let mut transaction_position = transaction_position;
    let mut merkle_proof: Vec<H256> = Vec::new();
    let mut current_hashes = tx_hashes;
    assert(digests(merkle_proof@) + merkle_proof_of(leaves, target) =~= merkle_proof_of(
        leaves,
        target,
    ));
    while current_hashes.len() > 1
        invariant
            transaction_position < current_hashes.len(),
            digests(merkle_proof@) + merkle_proof_of(
                digests(current_hashes@),
                transaction_position as int,
            ) == merkle_proof_of(leaves, target),
        decreases current_hashes.len(),
    {
        let ghost level = digests(current_hashes@);
        let ghost found = digests(merkle_proof@);
        pad(&mut current_hashes);
        let sibling = if transaction_position % 2 == 1 {
            assert(padded(level)[transaction_position - 1]
                == current_hashes@[transaction_position - 1]@);
            current_hashes[transaction_position - 1]
        } else {
            assert(padded(level)[transaction_position + 1]
                == current_hashes@[transaction_position + 1]@);
            current_hashes[transaction_position + 1]
        };
        let ghost step = seq![sibling_of(level, transaction_position as int)];
        merkle_proof.push(sibling);
        assert(digests(merkle_proof@) =~= found + step);
        current_hashes = hash_pairs(&current_hashes);
        transaction_position /= 2;
        let ghost rest = merkle_proof_of(next_level(level), transaction_position as int);
        assert(found + (step + rest) =~= found + step + rest);
    }
    assert(digests(merkle_proof@) + merkle_proof_of(
        digests(current_hashes@),
        transaction_position as int,
    ) =~= digests(merkle_proof@));
    merkle_proof
}

/// Builds the authentication path of the leaf at `position`, or refuses a
/// position that names no leaf.
pub fn build_merkle_proof(tx_hashes: Vec<H256>, position: usize) -> (r: Result<
    Vec<H256>,
    ProofError,
>)
    ensures
        match r {
            Ok(merkle_proof) => position < tx_hashes.len() && digests(merkle_proof@)
                == merkle_proof_of(digests(tx_hashes@), position as int),
            Err(e) => e == ProofError::IndexOutOfRange && position >= tx_hashes.len(),
        },
{
    if position < tx_hashes.len() {
        Ok(merkle_proof_calculator(tx_hashes, position))
    } else {
        Err(ProofError::IndexOutOfRange)
    }
}

/// Computes the root of the tree over `tx_hashes`. No leaves, no root.
pub fn merkle_root(tx_hashes: Vec<H256>) -> (root: Option<H256>)
    ensures
        match root {
            Some(hash) => tx_hashes.len() >= 1 && hash@ == merkle_root_of(digests(tx_hashes@)),
            None => tx_hashes.len() == 0,
        },
{
    if tx_hashes.len() == 0 {
        return None;
    }
    let ghost leaves = digests(tx_hashes@);
    let mut current_hashes = tx_hashes;
    while current_hashes.len() > 1
        invariant
            current_hashes.len() >= 1,
            merkle_root_of(digests(current_hashes@)) == merkle_root_of(leaves),
        decreases current_hashes.len(),
    {
        pad(&mut current_hashes);
        current_hashes = hash_pairs(&current_hashes);
    }
    Some(current_hashes[0])
}

/// Recomputes the root from a leaf, its position and its authentication
/// path.
pub fn root_from_merkle_proof(leaf: &H256, merkle_proof: &Vec<H256>, position: usize) -> (root:
    H256)
    ensures
        root@ == root_from_proof(leaf@, digests(merkle_proof@), position as int),
{
    let ghost path = digests(merkle_proof@);
    let mut node = *leaf;
    let mut index = position;
    let mut i: usize = 0;
    assert(path.skip(0) =~= path);
    while i < merkle_proof.len()
        invariant
            i <= merkle_proof.len(),
            path == digests(merkle_proof@),
            root_from_proof(node@, path.skip(i as int), index as int) == root_from_proof(
                leaf@,
                path,
                position as int,
            ),
        decreases merkle_proof.len() - i,
    {
        assert(path.skip(i as int).drop_first() =~= path.skip(i + 1));
        assert(path.skip(i as int)[0] == merkle_proof@[i as int]@);
        node = if index % 2 == 1 {
            compute_hash(&merkle_proof[i], &node)
        } else {
            compute_hash(&node, &merkle_proof[i])
        };
        index /= 2;
        i += 1;
    }
    node
}

/// Checks that `merkle_proof` leads from `leaf` at `position` to `root`.
pub fn check_merkle_proof(
    leaf: &H256,
    merkle_proof: &Vec<H256>,
    position: usize,
    root: &H256,
) -> (r: Result<(), ProofError>)
    ensures
        r is Ok <==> root_from_proof(leaf@, digests(merkle_proof@), position as int) == root@,
        r is Err ==> r == Err::<(), ProofError>(ProofError::ProofMismatch),
{
    let reached = root_from_merkle_proof(leaf, merkle_proof, position);
    if reached == *root {
        Ok(())
    } else {
        Err(ProofError::ProofMismatch)
    }
}

} // verus!
