//! Classification of raw endpoint errors into the flat failure taxonomy.
use crate::error::{Error, PreflightReport, RawError, ResponseData, RpcError};
use solana_sdk::transaction::TransactionError;
use vstd::prelude::*;

verus! {

/// The inner ledger error and the log lines of a raw error that reports a
/// failed preflight simulation with a non-null inner error.
pub open spec fn preflight_parts(raw: RawError) -> Option<(TransactionError, Option<Vec<String>>)> {
    match raw {
        RawError::Rpc(
            RpcError::RpcResponseError {
                data: ResponseData::SendTransactionPreflightFailure(report),
                ..
            },
        ) => match report.err {
            Some(e) => Some((e, report.logs)),
            None => None,
        },
        _ => None,
    }
}

/// Log lines as sent, or none when the endpoint sent no log at all.
pub open spec fn log_lines(logs: Option<Vec<String>>) -> Seq<String> {
    match logs {
        Some(v) => v@,
        None => Seq::empty(),
    }
}

/// `r` is the failure that the ledger error `e` with log lines `logs` gives.
pub open spec fn is_ledger_failure(e: TransactionError, logs: Seq<String>, r: Error) -> bool {
    match e {
        TransactionError::InstructionError(_, cause) => match r {
            Error::SolanaInstruction { error, logs: l } => error == cause && l@ == logs,
            _ => false,
        },
        _ => r == Error::SolanaTransaction(e),
    }
}

/// `r` is the classification of `raw`, by fixed precedence: a preflight
/// failure with an inner ledger error, then a parse failure, then any other
/// protocol error, then anything else.
pub open spec fn classifies(raw: RawError, r: Error) -> bool {
    match preflight_parts(raw) {
        Some((e, logs)) => is_ledger_failure(e, log_lines(logs), r),
        None => match raw {
            RawError::Rpc(RpcError::ParseError(m)) => r == Error::RpcParse(m),
            RawError::Rpc(f) => r == Error::Rpc(f),
            RawError::Other(m) => r == Error::RpcMisc(m),
        },
    }
}

/// Two failures are the same: equal, with log lines compared as sequences.
pub open spec fn same_failure(a: Error, b: Error) -> bool {
    match (a, b) {
        (
            Error::SolanaInstruction { error: e1, logs: l1 },
            Error::SolanaInstruction { error: e2, logs: l2 },
        ) => e1 == e2 && l1@ == l2@,
        _ => a == b,
    }
}

/// The failure that a ledger error gives: an instruction's failure keeps its
/// cause and the log lines, any other error is wrapped as it is.
pub fn ledger_failure(error: TransactionError, logs: Vec<String>) -> (r: Error)
    ensures
        is_ledger_failure(error, logs@, r),
{
    match error {
        TransactionError::InstructionError(_, cause) => Error::SolanaInstruction { error: cause, logs },
        other => Error::SolanaTransaction(other),
    }
}

/// Classifies an error raised by a call to the remote endpoint.
pub fn process_rpc_error(error: RawError) -> (r: Error)
    ensures
        classifies(error, r),
{
    match error {
        RawError::Rpc(
            RpcError::RpcResponseError {
                code,
                message,
                data: ResponseData::SendTransactionPreflightFailure(report),
            },
        ) => {
            let PreflightReport { err, logs } = report;
            match err {
                Some(e) => {
                    let lines = match logs {
                        Some(v) => v,
                        None => Vec::new(),
                    };
                    ledger_failure(e, lines)
                },
                None => Error::Rpc(
                    RpcError::RpcResponseError {
                        code,
                        message,
                        data: ResponseData::SendTransactionPreflightFailure(
                            PreflightReport { err: None, logs },
                        ),
                    },
                ),
            }
        },
        RawError::Rpc(RpcError::ParseError(m)) => Error::RpcParse(m),
        RawError::Rpc(f) => Error::Rpc(f),
        RawError::Other(m) => Error::RpcMisc(m),
    }
}

/// A preflight failure with a non-null inner error is classified as a ledger
/// failure that keeps the inner cause and exactly the attached log lines, in
/// order; it is never taken for a transport failure.
pub proof fn lemma_preflight_keeps_detail(
    code: i64,
    message: String,
    inner: TransactionError,
    logs: Option<Vec<String>>,
    r: Error,
)
    requires
        classifies(
            RawError::Rpc(
                RpcError::RpcResponseError {
                    code,
                    message,
                    data: ResponseData::SendTransactionPreflightFailure(
                        PreflightReport { err: Some(inner), logs },
                    ),
                },
            ),
            r,
        ),
    ensures
        !(r is Rpc),
        inner matches TransactionError::InstructionError(_, cause) ==> (
        r matches Error::SolanaInstruction { error, logs: l } && error == cause && l@ == log_lines(
            logs,
        )),
        !(inner is InstructionError) ==> r == Error::SolanaTransaction(inner),
{
}

/// A parse failure is classified as a malformed response that carries the
/// parser's message verbatim.
pub proof fn lemma_parse_failure_verbatim(m: String, r: Error)
    requires
        classifies(RawError::Rpc(RpcError::ParseError(m)), r),
    ensures
        r == Error::RpcParse(m),
{
}

/// Classification is a function of the raw error: equal inputs give the same
/// failure.
pub proof fn lemma_classify_deterministic(a: RawError, b: RawError, ra: Error, rb: Error)
    requires
        a == b,
        classifies(a, ra),
        classifies(b, rb),
    ensures
        same_failure(ra, rb),
{
}

} // verus!
