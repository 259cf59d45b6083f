use btc_inclusion::{merkle_proof_calculator, ProofArgs, H256};

const BLOCK: &str = "00000000d1145790a8694403d4063f323d499e655c83426834d4ce2f8dd4a2ee";

fn block_hash() -> H256 {
    BLOCK.parse().unwrap()
}

fn transaction(i: usize) -> H256 {
    let mut bytes = [0u8; 32];
    for (j, byte) in bytes.iter_mut().enumerate() {
        *byte = ((i * 13 + j * 3) % 256) as u8;
    }
    H256(bytes)
}

fn transactions(count: usize) -> Vec<H256> {
    (0..count).map(transaction).collect()
}

#[test]
fn request_for_a_transaction_of_the_block() {
    let all = transactions(5);
    let wanted = all[3].to_string();
    let args = ProofArgs::for_transaction(&wanted, block_hash(), all.clone(), 6).unwrap();
    assert_eq!(
        args,
        ProofArgs {
            tx_id: all[3],
            tx_block_blockhash: block_hash(),
            tx_index: 3,
            merkle_proof: merkle_proof_calculator(all, 3),
            confirmations: 6,
        }
    );
}

#[test]
fn request_for_each_transaction_of_the_block() {
    let all = transactions(9);
    for (index, hash) in all.iter().enumerate() {
        let args =
            ProofArgs::for_transaction(&hash.to_string(), block_hash(), all.clone(), 1).unwrap();
        assert_eq!(args.tx_index, index as u64);
        assert_eq!(args.tx_id, *hash);
    }
}

#[test]
fn no_request_for_a_transaction_elsewhere() {
    let all = transactions(5);
    let wanted = transaction(77).to_string();
    assert_eq!(ProofArgs::for_transaction(&wanted, block_hash(), all, 6), None);
}

#[test]
fn no_request_from_an_empty_block() {
    let wanted = transaction(0).to_string();
    assert_eq!(ProofArgs::for_transaction(&wanted, block_hash(), Vec::new(), 6), None);
}

#[test]
fn no_request_for_text_that_is_no_hash() {
    assert_eq!(ProofArgs::for_transaction("abc", block_hash(), transactions(3), 6), None);
}

#[test]
fn the_transaction_is_found_by_its_lower_case_display() {
    let all = transactions(3);
    let upper = all[1].to_string().to_uppercase();
    assert_eq!(ProofArgs::for_transaction(&upper, block_hash(), all, 6), None);
}

#[test]
fn the_first_of_two_equal_transactions_is_taken() {
    let mut all = transactions(4);
    all[3] = all[1];
    let args =
        ProofArgs::for_transaction(&all[1].to_string(), block_hash(), all.clone(), 2).unwrap();
    assert_eq!(args.tx_index, 1);
}
