use btc_inclusion::{
    build_merkle_proof, check_merkle_proof, compute_hash, double_sha256, merkle_proof_calculator,
    merkle_root, root_from_merkle_proof, ProofError, H256,
};
use std::str::FromStr;

const BLOCK_170_COINBASE: &str =
    "b1fea52486ce0c62bb442b530a3f0132b826c74e473d1f2c220bfa78111c5082";
const BLOCK_170_PAYMENT: &str = "f4184fc596403b9d638783cf57adfe4c75c605f6356fbc91338530e9831e9e16";
const BLOCK_170_ROOT: &str = "7dac2c5666815c17a3b36427de37bb9d2e2c5ccec3f8633eb91a4205cb4c10ff";

fn leaf(i: usize) -> H256 {
    let mut bytes = [0u8; 32];
    for (j, byte) in bytes.iter_mut().enumerate() {
        *byte = ((i * 7 + j) % 256) as u8;
    }
    H256(bytes)
}

fn leaves(count: usize) -> Vec<H256> {
    (0..count).map(leaf).collect()
}

fn stored(hex_text: &str) -> H256 {
    let mut bytes = [0u8; 32];
    hex::decode_to_slice(hex_text, &mut bytes).unwrap();
    H256(bytes)
}

fn log2_rounded_up(count: usize) -> usize {
    let mut height = 0;
    while (1usize << height) < count {
        height += 1;
    }
    height
}

#[test]
fn compute_hash_joins_left_then_right() {
    let a = H256([0x11; 32]);
    let b = H256([0x22; 32]);
    assert_eq!(
        compute_hash(&a, &b),
        stored("1140b574afee3cb89a4db3dc8037acfa856f5112e68a954e3ca0a908082c98ba")
    );
    assert_ne!(compute_hash(&a, &b), compute_hash(&b, &a));
}

#[test]
fn compute_hash_is_double_sha256_of_the_64_bytes() {
    let a = leaf(3);
    let b = leaf(4);
    let mut joined = Vec::new();
    joined.extend_from_slice(&a.0);
    joined.extend_from_slice(&b.0);
    assert_eq!(compute_hash(&a, &b), double_sha256(&joined));
}

#[test]
fn single_leaf_has_the_empty_proof() {
    let only = leaf(0);
    assert_eq!(merkle_proof_calculator(vec![only], 0), Vec::<H256>::new());
    assert_eq!(merkle_root(vec![only]), Some(only));
    assert_eq!(root_from_merkle_proof(&only, &Vec::new(), 0), only);
}

#[test]
fn three_leaves_first_target() {
    let a = H256([0x11; 32]);
    let b = H256([0x22; 32]);
    let c = H256([0x33; 32]);
    let proof = merkle_proof_calculator(vec![a, b, c], 0);
    assert_eq!(proof, vec![b, compute_hash(&c, &c)]);
    assert_eq!(
        proof[1],
        stored("ee99b53b490294fac3f1f92699211740853452f355b51a82240c75688ce6204d")
    );
    let root = compute_hash(&compute_hash(&a, &b), &compute_hash(&c, &c));
    assert_eq!(
        root,
        stored("cacd895c5e82f37a37b6f4923c214ca6089e5f7b075b9fca7e11e782a0f3f5e6")
    );
    assert_eq!(merkle_root(vec![a, b, c]), Some(root));
    assert_eq!(root_from_merkle_proof(&a, &proof, 0), root);
}

#[test]
fn three_leaves_last_target_is_its_own_sibling() {
    let a = H256([0x11; 32]);
    let b = H256([0x22; 32]);
    let c = H256([0x33; 32]);
    let proof = merkle_proof_calculator(vec![a, b, c], 2);
    assert_eq!(proof, vec![c, compute_hash(&a, &b)]);
}

#[test]
fn three_leaves_middle_target() {
    let a = H256([0x11; 32]);
    let b = H256([0x22; 32]);
    let c = H256([0x33; 32]);
    let proof = merkle_proof_calculator(vec![a, b, c], 1);
    assert_eq!(proof, vec![a, compute_hash(&c, &c)]);
}

#[test]
fn two_leaves() {
    let a = leaf(1);
    let b = leaf(2);
    assert_eq!(merkle_proof_calculator(vec![a, b], 0), vec![b]);
    assert_eq!(merkle_proof_calculator(vec![a, b], 1), vec![a]);
    assert_eq!(merkle_root(vec![a, b]), Some(compute_hash(&a, &b)));
}

#[test]
fn block_170() {
    let coinbase = H256::from_str(BLOCK_170_COINBASE).unwrap();
    let payment = H256::from_str(BLOCK_170_PAYMENT).unwrap();
    let root = H256::from_str(BLOCK_170_ROOT).unwrap();
    let transactions = vec![coinbase, payment];
    assert_eq!(merkle_root(transactions.clone()), Some(root));
    let proof = merkle_proof_calculator(transactions, 1);
    assert_eq!(proof, vec![coinbase]);
    assert_eq!(proof[0].to_string(), BLOCK_170_COINBASE);
    assert_eq!(check_merkle_proof(&payment, &proof, 1, &root), Ok(()));
}

#[test]
fn five_leaves_last_target() {
    let proof = merkle_proof_calculator(leaves(5), 4);
    assert_eq!(
        proof,
        vec![
            stored("1c1d1e1f202122232425262728292a2b2c2d2e2f303132333435363738393a3b"),
            stored("019ab68d0849e9db1f688aae0157e6b895a883edebc9ea743de192bcc8b9c9df"),
            stored("b781de0da761b71694de3c82846cf91a9587bfb2fbdfd58c27b1a635c62d74d3"),
        ]
    );
    assert_eq!(
        merkle_root(leaves(5)),
        Some(stored(
            "6aab0b79411ac22941295b355152959a402112f7b1632fe34df3085c82c47449"
        ))
    );
}

#[test]
fn seven_leaves_last_target() {
    let proof = merkle_proof_calculator(leaves(7), 6);
    assert_eq!(
        proof,
        vec![
            stored("2a2b2c2d2e2f303132333435363738393a3b3c3d3e3f40414243444546474849"),
            stored("1e3ac80aa4deabd4cf204b1d616dcffb5c599167116567e98c987dd8444657e7"),
            stored("b781de0da761b71694de3c82846cf91a9587bfb2fbdfd58c27b1a635c62d74d3"),
        ]
    );
    assert_eq!(
        merkle_root(leaves(7)),
        Some(stored(
            "eb33152efaa5d95ec3267530f3495b1ae5e4c0b523df86caed1d084cbcf3e5b8"
        ))
    );
}

#[test]
fn proof_length_is_log2_rounded_up() {
    for count in 1..=33 {
        for index in 0..count {
            let proof = merkle_proof_calculator(leaves(count), index);
            assert_eq!(proof.len(), log2_rounded_up(count), "{} leaves", count);
        }
    }
    assert_eq!(merkle_proof_calculator(leaves(1), 0).len(), 0);
    assert_eq!(merkle_proof_calculator(leaves(2), 0).len(), 1);
    assert_eq!(merkle_proof_calculator(leaves(3), 0).len(), 2);
    assert_eq!(merkle_proof_calculator(leaves(4), 0).len(), 2);
    assert_eq!(merkle_proof_calculator(leaves(5), 0).len(), 3);
    assert_eq!(merkle_proof_calculator(leaves(8), 0).len(), 3);
    assert_eq!(merkle_proof_calculator(leaves(9), 0).len(), 4);
}

#[test]
fn every_proof_leads_to_the_root() {
    for count in 1..=33 {
        let all = leaves(count);
        let root = merkle_root(all.clone()).unwrap();
        for index in 0..count {
            let proof = merkle_proof_calculator(all.clone(), index);
            assert_eq!(root_from_merkle_proof(&all[index], &proof, index), root);
            assert_eq!(check_merkle_proof(&all[index], &proof, index, &root), Ok(()));
        }
    }
}

#[test]
fn sibling_is_the_neighbour_or_the_node_itself() {
    for count in 2..=17 {
        let all = leaves(count);
        for index in 0..count {
            let proof = merkle_proof_calculator(all.clone(), index);
            let expected = if index % 2 == 1 {
                all[index - 1]
            } else if index + 1 < count {
                all[index + 1]
            } else {
                all[index]
            };
            assert_eq!(proof[0], expected);
        }
    }
}

#[test]
fn power_of_two_has_no_repeated_node() {
    let all = leaves(4);
    let proof = merkle_proof_calculator(all.clone(), 3);
    assert_eq!(proof, vec![all[2], compute_hash(&all[0], &all[1])]);
}

#[test]
fn the_input_decides_the_proof() {
    let first = merkle_proof_calculator(leaves(11), 6);
    let second = merkle_proof_calculator(leaves(11), 6);
    assert_eq!(first, second);
}

#[test]
fn a_wrong_proof_is_a_mismatch() {
    let all = leaves(6);
    let root = merkle_root(all.clone()).unwrap();
    let mut proof = merkle_proof_calculator(all.clone(), 2);
    assert_eq!(check_merkle_proof(&all[2], &proof, 3, &root), Err(ProofError::ProofMismatch));
    assert_eq!(check_merkle_proof(&all[3], &proof, 2, &root), Err(ProofError::ProofMismatch));
    proof[1] = leaf(99);
    assert_eq!(check_merkle_proof(&all[2], &proof, 2, &root), Err(ProofError::ProofMismatch));
}

#[test]
fn index_past_the_leaves_is_refused() {
    assert_eq!(build_merkle_proof(leaves(3), 3), Err(ProofError::IndexOutOfRange));
    assert_eq!(build_merkle_proof(leaves(1), 1), Err(ProofError::IndexOutOfRange));
    assert_eq!(build_merkle_proof(Vec::new(), 0), Err(ProofError::IndexOutOfRange));
}

#[test]
fn index_within_the_leaves_is_served() {
    assert_eq!(build_merkle_proof(leaves(3), 2), Ok(merkle_proof_calculator(leaves(3), 2)));
    assert_eq!(build_merkle_proof(leaves(1), 0), Ok(Vec::new()));
}

#[test]
fn no_leaves_no_root() {
    assert_eq!(merkle_root(Vec::new()), None);
}
