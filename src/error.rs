//! The raw shape of an endpoint error, as far as classification reads it, and
//! the flat failure taxonomy that classification produces.
use solana_sdk::instruction::InstructionError;
use solana_sdk::signer::SignerError;
use solana_sdk::transaction::TransactionError;
use vstd::prelude::*;

verus! {

/// What a failed preflight simulation reports.
#[derive(Debug, PartialEq, Eq)]
pub struct PreflightReport {
    /// The ledger error the simulation ended with, if any.
    pub err: Option<TransactionError>,
    /// The execution log lines of the simulation, if the endpoint sent them.
    pub logs: Option<Vec<String>>,
}

/// The payload of a server response error.
#[derive(Debug, PartialEq, Eq)]
pub enum ResponseData {
    Empty,
    SendTransactionPreflightFailure(PreflightReport),
    NodeUnhealthy { num_slots_behind: Option<u64> },
}

/// An error of the endpoint's request/response protocol.
#[derive(Debug, PartialEq, Eq)]
pub enum RpcError {
    /// The request could not be made.
    RpcRequestError(String),
    /// The server answered with an error.
    RpcResponseError { code: i64, message: String, data: ResponseData },
    /// The response could not be parsed.
    ParseError(String),
    /// An error meant for the end user.
    ForUser(String),
}

/// An error raised by a call to the remote endpoint.
#[derive(Debug, PartialEq, Eq)]
pub enum RawError {
    /// A structured error of the endpoint's protocol.
    Rpc(RpcError),
    /// Any other error, by its text.
    Other(String),
}

/// A classified failure of a submission.
#[derive(Debug, PartialEq, Eq)]
pub enum Error {
    /// A failure of no more precise kind.
    Misc,
    /// The payer key material is not a valid keypair.
    Keypair,
    /// The envelope could not be signed.
    Signer(SignerError),
    /// The streaming client could not be set up; carries its message.
    Pubsub(String),
    /// A transport failure of the endpoint's protocol.
    Rpc(RpcError),
    /// An instruction failed; carries its cause and the execution log lines.
    SolanaInstruction { error: InstructionError, logs: Vec<String> },
    /// A transaction-level ledger error.
    SolanaTransaction(TransactionError),
    /// Any other endpoint error, by its text.
    RpcMisc(String),
    /// The endpoint's response could not be parsed; carries the parser's message.
    RpcParse(String),
}

/// A configuration defect found before any remote call: not a failure of the
/// remote system, and never reported as an `Error`.
#[derive(Clone, Copy, Debug, PartialEq, Eq, Structural)]
pub enum Precondition {
    /// The address of the request endpoint was never set.
    MissingEndpoint,
    /// The payer key material was never set.
    MissingPayer,
}

} // verus!
