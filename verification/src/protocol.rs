//! The two steps of a verification request.
//!
//! A request is submitted once: its inputs are parsed and the payload is
//! handed to the host, which sends it to the light client. When that call has
//! settled, the host hands what came back to the continuation, which decides
//! the outcome and what the host has to do about it. A call that gave no
//! usable answer never counts as a confirmation.

use crate::request::{request_of, ProofArgs, RequestError};
use vstd::prelude::*;

verus! {

/// The account of the light client that requests are sent to.
pub const LIGHT_CLIENT_ACCOUNT: &'static str = "btc-client.testnet";

/// One of the four bytes that JSON skips between values.
pub open spec fn is_json_space(byte: u8) -> bool {
    byte == 0x20 || byte == 0x0a || byte == 0x09 || byte == 0x0d
}

/// `text` is `word` from `start` on, with nothing but JSON white space
/// before and after it.
pub open spec fn is_word_at(text: Seq<u8>, word: Seq<u8>, start: int) -> bool {
    &&& 0 <= start
    &&& start + word.len() <= text.len()
    &&& text.subrange(start, start + word.len()) == word
    &&& forall|i: int| 0 <= i < start ==> is_json_space(#[trigger] text[i])
    &&& forall|i: int| start + word.len() <= i < text.len() ==> is_json_space(#[trigger] text[i])
}

/// The bytes of `true`.
pub open spec fn json_true() -> Seq<u8> {
    seq![0x74u8, 0x72u8, 0x75u8, 0x65u8]
}

/// The bytes of `false`.
pub open spec fn json_false() -> Seq<u8> {
    seq![0x66u8, 0x61u8, 0x6cu8, 0x73u8, 0x65u8]
}

/// The boolean that `text` is as a JSON document, if it is one: `true` or
/// `false`, with optional white space around it.
pub open spec fn json_bool(text: Seq<u8>) -> Option<bool> {
    if exists|start: int| is_word_at(text, json_true(), start) {
        Some(true)
    } else if exists|start: int| is_word_at(text, json_false(), start) {
        Some(false)
    } else {
        None
    }
}

#[verifier::external_type_specification]
#[verifier::external_body]
pub struct ExJsonError(serde_json::Error);

/// `serde_json::from_slice` for a `bool`: it reads exactly the documents
/// that `json_bool` describes, and fails on every other input.
#[verifier::external_body]
fn bool_from_slice(bytes: &[u8]) -> (r: Result<bool, serde_json::Error>)
    ensures
        match r {
            Ok(value) => json_bool(bytes@) == Some(value),
            Err(_) => json_bool(bytes@) is None,
        },
{
    serde_json::from_slice::<bool>(bytes)
}

/// The remote verifier, as a request addresses it.
pub trait BtcLightClient {
    /// Whether the transaction of `args` is in the block of `args`, as its
    /// proof shows, under the confirmations asked for.
    fn verify_transaction_inclusion(&self, args: ProofArgs) -> bool;
}

/// A request that was submitted and has not settled: what the host sends,
/// and to whom.
#[derive(Clone, Debug, PartialEq, Eq)]
pub struct PendingRequest {
    pub receiver: &'static str,
    pub args: ProofArgs,
}

/// How a request ended.
#[derive(Clone, Copy, Debug, PartialEq, Eq, Structural)]
pub enum VerificationOutcome {
    /// The light client answered with this boolean.
    Resolved(bool),
    /// The call gave no usable answer.
    Failed,
}

/// What the host does once a request has settled.
#[derive(Clone, Copy, Debug, PartialEq, Eq, Structural)]
pub enum Action {
    /// Record that inclusion was confirmed.
    Notify,
    /// Nothing.
    Nothing,
}

/// The end of a request: its outcome and what follows from it.
#[derive(Clone, Copy, Debug, PartialEq, Eq, Structural)]
pub struct Settlement {
    pub outcome: VerificationOutcome,
    pub action: Action,
}

/// What a settled call handed back, by its bytes.
pub open spec fn answer_of(remote: Option<Vec<u8>>) -> Option<Seq<u8>> {
    match remote {
        Some(bytes) => Some(bytes@),
        None => None,
    }
}

/// The outcome of a request whose call settled with `answer`: `None` for a
/// call that failed, else the bytes that it returned.
pub open spec fn outcome_of(answer: Option<Seq<u8>>) -> VerificationOutcome {
    match answer {
        Some(bytes) => match json_bool(bytes) {
            Some(value) => VerificationOutcome::Resolved(value),
            None => VerificationOutcome::Failed,
        },
        None => VerificationOutcome::Failed,
    }
}

/// What follows from an outcome.
pub open spec fn action_of(outcome: VerificationOutcome) -> Action {
    if outcome.verified() {
        Action::Notify
    } else {
        Action::Nothing
    }
}

impl VerificationOutcome {
    /// The outcome as the requester sees it: a yes only from a call that
    /// answered yes.
    pub open spec fn verified(&self) -> bool {
        *self == VerificationOutcome::Resolved(true)
    }

    /// The outcome as the requester sees it.
    #[verifier::when_used_as_spec(verified)]
    pub fn is_verified(&self) -> (yes: bool)
        ensures
            yes == self.verified(),
    {
        match self {
            VerificationOutcome::Resolved(value) => *value,
            VerificationOutcome::Failed => false,
        }
    }
}

/// A call that gave no usable answer is never seen as a confirmation.
pub proof fn lemma_fail_closed(answer: Option<Seq<u8>>)
    requires
        answer is None || json_bool(answer.unwrap()) is None,
    ensures
        outcome_of(answer) == VerificationOutcome::Failed,
        !outcome_of(answer).verified(),
{
}

/// A request is seen as confirmed exactly when its call returned the JSON
/// document `true`, and the host is told to notify exactly then.
pub proof fn lemma_notify_iff_verified(answer: Option<Seq<u8>>)
    ensures
        outcome_of(answer).verified() <==> answer is Some && json_bool(answer.unwrap()) == Some(
            true,
        ),
        action_of(outcome_of(answer)) == Action::Notify <==> outcome_of(answer).verified(),
{
}

/// The requesting side of the protocol. It keeps no state between requests.
#[derive(Clone, Copy, Debug, PartialEq, Eq, Structural)]
pub struct Contract {}

impl Default for Contract {
    fn default() -> (contract: Contract)
        ensures
            contract == (Contract {  }),
    {
        Contract {  }
    }
}

impl Contract {
    /// Submits a request: parses its inputs and, if each hash is well formed,
    /// gives the host the payload for the light client. A malformed input
    /// fails the request, and nothing is to be sent.
    pub fn verify_transaction_inclusion(
        &self,
        tx_id: String,
        tx_block_blockhash: String,
        tx_index: u64,
        merkle_proof: Vec<String>,
        confirmations: u64,
    ) -> (r: Result<PendingRequest, RequestError>)
        ensures
            match r {
                Ok(pending) => pending.receiver == LIGHT_CLIENT_ACCOUNT && request_of(
                    tx_id@,
                    tx_block_blockhash@,
                    tx_index,
                    merkle_proof@,
                    confirmations,
                    Ok(pending.args),
                ),
                Err(e) => request_of(
                    tx_id@,
                    tx_block_blockhash@,
                    tx_index,
                    merkle_proof@,
                    confirmations,
                    Err(e),
                ),
            },
    {
        match ProofArgs::from_hex(
            tx_id.as_str(),
            tx_block_blockhash.as_str(),
            tx_index,
            &merkle_proof,
            confirmations,
        ) {
            Ok(args) => Ok(PendingRequest { receiver: LIGHT_CLIENT_ACCOUNT, args }),
            Err(e) => Err(e),
        }
    }

    /// The continuation of a request, run once its call has settled. `remote`
    /// is `None` when the call failed, else the bytes that it returned.
    pub fn internal_verify_withdraw_callback(&mut self, remote: Option<Vec<u8>>) -> (settled:
        Settlement)
        ensures
            settled.outcome == outcome_of(answer_of(remote)),
            settled.action == action_of(settled.outcome),
            *final(self) == *old(self),
    {
        let outcome = match remote {
            Some(result_bytes) => match bool_from_slice(result_bytes.as_slice()) {
                Ok(result) => VerificationOutcome::Resolved(result),
                Err(_) => VerificationOutcome::Failed,
            },
            None => VerificationOutcome::Failed,
        };
        let action = if outcome.is_verified() {
            Action::Notify
        } else {
            Action::Nothing
        };
        Settlement { outcome, action }
    }
}

} // verus!
