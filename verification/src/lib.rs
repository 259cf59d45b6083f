//! Merkle inclusion proofs for Bitcoin transactions, and the request
//! protocol that carries such a proof to a light client for verification.

pub mod block;
pub mod encoding;
pub mod hash;
pub mod merkle;
pub mod protocol;
pub mod request;
pub mod wire;

pub use block::{BlockError, BlockSummary};
pub use hash::{double_sha256, H256, HashError};
pub use merkle::{
    build_merkle_proof, check_merkle_proof, compute_hash, merkle_proof_calculator, merkle_root,
    root_from_merkle_proof, ProofError,
};
pub use protocol::{
    Action, BtcLightClient, Contract, PendingRequest, Settlement, VerificationOutcome,
    LIGHT_CLIENT_ACCOUNT,
};
pub use request::{ProofArgs, RequestError, RequestField};
