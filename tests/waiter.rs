use ledger_submit::error::{Error, RawError, RpcError};
use ledger_submit::waiter::{Acceptance, ConfirmationWaiter, Decision, PollOutcome};

#[test]
fn soft_acceptance_alone_never_succeeds() {
    let mut w = ConfirmationWaiter::new();
    for i in 0..1000 {
        let d = w.observe(PollOutcome::Soft(Ok(())));
        assert_eq!(d, Decision::KeepWaiting { announce_soft: i == 0 });
        assert!(!w.is_done());
    }
    assert_eq!(w.level(), Acceptance::SoftAccepted);
}

#[test]
fn durable_failure_ends_the_wait_at_once() {
    let mut w = ConfirmationWaiter::new();
    let d = w.observe(PollOutcome::Durable(Err(RawError::Rpc(RpcError::RpcRequestError(
        "connection reset".to_string(),
    )))));
    assert_eq!(d, Decision::Abort(Error::Rpc(RpcError::RpcRequestError("connection reset".to_string()))));
    assert!(w.is_done());
    assert_eq!(w.level(), Acceptance::Failed);
    // the soft poll that would have succeeded later changes nothing
    assert_eq!(w.observe(PollOutcome::Soft(Ok(()))), Decision::Settled);
    assert_eq!(w.level(), Acceptance::Failed);
}

#[test]
fn soft_then_durable_announces_once_then_succeeds() {
    let mut w = ConfirmationWaiter::new();
    let mut announced: u32 = 0;
    let d1 = w.observe(PollOutcome::Soft(Ok(())));
    if let Decision::KeepWaiting { announce_soft: true } = d1 {
        announced += 1;
    }
    assert_eq!(w.level(), Acceptance::SoftAccepted);
    let d2 = w.observe(PollOutcome::Durable(Ok(())));
    assert_eq!(d2, Decision::Finalized);
    assert_eq!(announced, 1);
    assert_eq!(w.level(), Acceptance::DurablyAccepted);
}

#[test]
fn durable_without_soft_succeeds() {
    let mut w = ConfirmationWaiter::new();
    assert_eq!(w.observe(PollOutcome::Durable(Ok(()))), Decision::Finalized);
    assert_eq!(w.observe(PollOutcome::Durable(Ok(()))), Decision::Settled);
    assert_eq!(w.level(), Acceptance::DurablyAccepted);
}

#[test]
fn soft_failure_after_soft_success_fails() {
    let mut w = ConfirmationWaiter::new();
    w.observe(PollOutcome::Soft(Ok(())));
    let d = w.observe(PollOutcome::Soft(Err(RawError::Other("Custom: gone".to_string()))));
    assert_eq!(d, Decision::Abort(Error::RpcMisc("Custom: gone".to_string())));
    assert_eq!(w.level(), Acceptance::Failed);
}
