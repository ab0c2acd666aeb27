use ledger_submit::classify::{ledger_failure, process_rpc_error};
use ledger_submit::error::{Error, PreflightReport, RawError, ResponseData, RpcError};
use solana_sdk::instruction::InstructionError;
use solana_sdk::transaction::TransactionError;

fn preflight(err: Option<TransactionError>, logs: Option<Vec<String>>) -> RawError {
    RawError::Rpc(RpcError::RpcResponseError {
        code: -32002,
        message: "Transaction simulation failed".to_string(),
        data: ResponseData::SendTransactionPreflightFailure(PreflightReport { err, logs }),
    })
}

fn lines() -> Vec<String> {
    vec![
        "Program 11111111111111111111111111111111 invoke [1]".to_string(),
        "Transfer: insufficient lamports 0, need 10".to_string(),
        "Program 11111111111111111111111111111111 failed: custom program error: 0x1".to_string(),
    ]
}

#[test]
fn preflight_instruction_failure_keeps_cause_and_logs() {
    let raw = preflight(
        Some(TransactionError::InstructionError(0, InstructionError::Custom(1))),
        Some(lines()),
    );
    match process_rpc_error(raw) {
        Error::SolanaInstruction { error, logs } => {
            assert_eq!(error, InstructionError::Custom(1));
            assert_eq!(logs, lines());
        }
        other => panic!("unexpected classification: {other:?}"),
    }
}

#[test]
fn preflight_without_logs_gives_empty_logs() {
    let raw = preflight(
        Some(TransactionError::InstructionError(2, InstructionError::InvalidArgument)),
        None,
    );
    match process_rpc_error(raw) {
        Error::SolanaInstruction { error, logs } => {
            assert_eq!(error, InstructionError::InvalidArgument);
            assert!(logs.is_empty());
        }
        other => panic!("unexpected classification: {other:?}"),
    }
}

#[test]
fn preflight_transaction_error_is_wrapped() {
    let raw = preflight(Some(TransactionError::BlockhashNotFound), Some(lines()));
    assert_eq!(
        process_rpc_error(raw),
        Error::SolanaTransaction(TransactionError::BlockhashNotFound)
    );
}

#[test]
fn preflight_without_inner_error_is_transport_failure() {
    let raw = preflight(None, Some(lines()));
    assert_eq!(process_rpc_error(raw), Error::Rpc(match preflight(None, Some(lines())) {
        RawError::Rpc(e) => e,
        RawError::Other(_) => unreachable!(),
    }));
}

#[test]
fn parse_failure_keeps_message_verbatim() {
    let raw = RawError::Rpc(RpcError::ParseError("Signature".to_string()));
    assert_eq!(process_rpc_error(raw), Error::RpcParse("Signature".to_string()));
}

#[test]
fn other_protocol_error_is_transport_failure() {
    let raw = RawError::Rpc(RpcError::RpcRequestError("connection refused".to_string()));
    assert_eq!(
        process_rpc_error(raw),
        Error::Rpc(RpcError::RpcRequestError("connection refused".to_string()))
    );
    let unhealthy = RawError::Rpc(RpcError::RpcResponseError {
        code: -32005,
        message: "Node is behind".to_string(),
        data: ResponseData::NodeUnhealthy { num_slots_behind: Some(42) },
    });
    assert!(matches!(
        process_rpc_error(unhealthy),
        Error::Rpc(RpcError::RpcResponseError { code: -32005, .. })
    ));
}

#[test]
fn any_other_error_is_miscellaneous_with_its_text() {
    let raw = RawError::Other("Custom: timed out".to_string());
    assert_eq!(process_rpc_error(raw), Error::RpcMisc("Custom: timed out".to_string()));
}

#[test]
fn classify_twice_gives_equal_results() {
    let make = || {
        preflight(
            Some(TransactionError::InstructionError(1, InstructionError::Custom(6000))),
            Some(lines()),
        )
    };
    assert_eq!(process_rpc_error(make()), process_rpc_error(make()));
    let parse = || RawError::Rpc(RpcError::ParseError("u64".to_string()));
    assert_eq!(process_rpc_error(parse()), process_rpc_error(parse()));
}

#[test]
fn ledger_failure_splits_instruction_errors() {
    assert_eq!(
        ledger_failure(
            TransactionError::InstructionError(3, InstructionError::Custom(7)),
            vec!["log".to_string()]
        ),
        Error::SolanaInstruction { error: InstructionError::Custom(7), logs: vec!["log".to_string()] }
    );
    assert_eq!(
        ledger_failure(TransactionError::AccountInUse, vec![]),
        Error::SolanaTransaction(TransactionError::AccountInUse)
    );
}
