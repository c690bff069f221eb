use async_ssh2_lite::session_stream::{
    classify_attempt, retry_step, run_attempts, AttemptOutcome, BlockDirections, RetryDecision,
};
use async_ssh2_lite::{EngineError, Error};
use async_ssh2_lite::error::ErrorCode;

fn engine_error(code: ErrorCode, message: &str) -> EngineError {
    EngineError { code, message: message.to_string() }
}

fn would_block() -> EngineError {
    engine_error(ErrorCode::Session(-37), "would block")
}

#[test]
fn first_attempt_success_resolves_without_wait() {
    let attempts: Vec<AttemptOutcome<u64>> = vec![AttemptOutcome::Ready(5)];
    let (result, waits) = run_attempts(attempts);
    assert_eq!(result, Ok(5));
    assert!(waits.is_empty());
}

#[test]
fn retrying_is_transparent_to_the_result() {
    let attempts: Vec<AttemptOutcome<u64>> = vec![
        AttemptOutcome::WouldBlock(BlockDirections::Inbound),
        AttemptOutcome::WouldBlock(BlockDirections::Outbound),
        AttemptOutcome::WouldBlock(BlockDirections::Both),
        AttemptOutcome::Ready(9),
    ];
    let (result, waits) = run_attempts(attempts);
    assert_eq!(result, Ok(9));
    assert_eq!(
        waits,
        vec![BlockDirections::Inbound, BlockDirections::Outbound, BlockDirections::Both]
    );
}

#[test]
fn real_error_fails_immediately_without_retry() {
    let failure = engine_error(ErrorCode::Session(-5), "key exchange failure");
    let attempts: Vec<AttemptOutcome<u64>> = vec![
        AttemptOutcome::Failed(failure.clone()),
        AttemptOutcome::Ready(1),
    ];
    let (result, waits) = run_attempts(attempts);
    assert_eq!(result, Err(Error::Ssh2(failure)));
    assert!(waits.is_empty());
}

#[test]
fn error_after_would_blocks_is_surfaced_verbatim() {
    let failure = engine_error(ErrorCode::Sftp(4), "sftp failure");
    let attempts: Vec<AttemptOutcome<u64>> = vec![
        AttemptOutcome::WouldBlock(BlockDirections::Inbound),
        AttemptOutcome::Failed(failure.clone()),
    ];
    let (result, waits) = run_attempts(attempts);
    assert_eq!(result, Err(Error::Ssh2(failure)));
    assert_eq!(waits, vec![BlockDirections::Inbound]);
}

#[test]
fn directionless_would_block_waits_on_both() {
    let attempts: Vec<AttemptOutcome<u64>> = vec![
        AttemptOutcome::WouldBlock(BlockDirections::Neither),
        AttemptOutcome::Ready(2),
    ];
    let (result, waits) = run_attempts(attempts);
    assert_eq!(result, Ok(2));
    assert_eq!(waits, vec![BlockDirections::Both]);
}

#[test]
fn abandoning_waits_and_reissuing_settles_the_same() {
    let full: Vec<AttemptOutcome<u64>> = vec![
        AttemptOutcome::WouldBlock(BlockDirections::Inbound),
        AttemptOutcome::WouldBlock(BlockDirections::Outbound),
        AttemptOutcome::Ready(11),
    ];
    let resumed: Vec<AttemptOutcome<u64>> = full[2..].to_vec();
    let (first, _) = run_attempts(full);
    let (second, waits) = run_attempts(resumed);
    assert_eq!(first, second);
    assert!(waits.is_empty());
}

#[test]
fn classify_success_is_ready() {
    let outcome = classify_attempt::<u64>(Ok(3), BlockDirections::Neither);
    assert_eq!(outcome, AttemptOutcome::Ready(3));
}

#[test]
fn classify_would_block_carries_the_reported_directions() {
    let outcome = classify_attempt::<u64>(Err(would_block()), BlockDirections::Outbound);
    assert_eq!(outcome, AttemptOutcome::WouldBlock(BlockDirections::Outbound));
}

#[test]
fn classify_other_error_is_a_failure() {
    let failure = engine_error(ErrorCode::Session(-18), "authentication failed");
    let outcome = classify_attempt::<u64>(Err(failure.clone()), BlockDirections::Inbound);
    assert_eq!(outcome, AttemptOutcome::Failed(failure));
}

#[test]
fn retry_step_decides_each_outcome() {
    assert_eq!(
        retry_step::<u64>(AttemptOutcome::Ready(7)),
        RetryDecision::Resolve(7)
    );
    assert_eq!(
        retry_step::<u64>(AttemptOutcome::WouldBlock(BlockDirections::Inbound)),
        RetryDecision::Suspend(BlockDirections::Inbound)
    );
    let failure = engine_error(ErrorCode::Session(-14), "channel failure");
    assert_eq!(
        retry_step::<u64>(AttemptOutcome::Failed(failure.clone())),
        RetryDecision::Fail(Error::Ssh2(failure))
    );
}

#[test]
fn would_block_is_the_session_try_again_code_alone() {
    assert!(would_block().is_would_block());
    assert!(!engine_error(ErrorCode::Session(-1), "banner send failure").is_would_block());
    assert!(!engine_error(ErrorCode::Sftp(-37), "sftp code").is_would_block());
}

#[test]
fn engine_error_converts_to_the_engine_variant() {
    let failure = engine_error(ErrorCode::Session(-9), "bad socket");
    assert_eq!(Error::from(failure.clone()), Error::Ssh2(failure));
}
