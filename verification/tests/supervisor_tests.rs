use neolink::supervisor::AttemptFailure;
use neolink::supervisor::Backoff;
use neolink::supervisor::Decision;
use neolink::supervisor::FatalKind;
use neolink::supervisor::StreamError;
use neolink::supervisor::TransientKind;
use neolink::supervisor::MAX_BACKOFF_SECS;
use neolink::supervisor::MIN_BACKOFF_SECS;

fn unreachable_camera() -> AttemptFailure {
    AttemptFailure {
        connected: false,
        error: StreamError::Transient(TransientKind::ConnectFailure),
    }
}

#[test]
fn scenario_c_retry_delays() {
    // Three connection failures in a row: delays 1s, 2s, 4s.
    let mut backoff = Backoff::new();
    let mut delays: Vec<u64> = Vec::new();
    for _ in 0..3 {
        match backoff.on_attempt_failure(&unreachable_camera()) {
            Decision::RetryAfter { delay_secs } => delays.push(delay_secs),
            Decision::Abort => panic!("a transient failure must be retried"),
        }
    }
    assert_eq!(delays, vec![1, 2, 4]);
}

#[test]
fn backoff_growth_is_capped() {
    // 1, 2, 4, 8, 15, 15, ...: doubling stops at the cap.
    let mut backoff = Backoff::new();
    let mut delays: Vec<u64> = Vec::new();
    for _ in 0..7 {
        match backoff.on_attempt_failure(&unreachable_camera()) {
            Decision::RetryAfter { delay_secs } => delays.push(delay_secs),
            Decision::Abort => panic!("a transient failure must be retried"),
        }
    }
    assert_eq!(delays, vec![1, 2, 4, 8, 15, 15, 15]);
    assert_eq!(MIN_BACKOFF_SECS, 1);
    assert_eq!(MAX_BACKOFF_SECS, 15);
}

#[test]
fn scenario_b_auth_rejection_aborts_at_once() {
    // A rejected login is permanent: the first decision is Abort, no delay.
    let mut backoff = Backoff::new();
    let failure = AttemptFailure { connected: false, error: StreamError::AuthRejected };
    assert_eq!(backoff.on_attempt_failure(&failure), Decision::Abort);
}

#[test]
fn auth_rejection_aborts_even_after_live_stream() {
    let mut backoff = Backoff::new();
    backoff.on_attempt_failure(&unreachable_camera());
    backoff.on_attempt_failure(&unreachable_camera());
    let failure = AttemptFailure { connected: true, error: StreamError::AuthRejected };
    assert_eq!(backoff.on_attempt_failure(&failure), Decision::Abort);
}

#[test]
fn backoff_resets_after_live_connection() {
    // Grow the delay, then fail an attempt that had gone live: the retry
    // delay is MIN_BACKOFF_SECS again.
    let mut backoff = Backoff::new();
    for _ in 0..4 {
        backoff.on_attempt_failure(&unreachable_camera());
    }
    let dropped_live_stream = AttemptFailure {
        connected: true,
        error: StreamError::Transient(TransientKind::SessionDropped),
    };
    assert_eq!(
        backoff.on_attempt_failure(&dropped_live_stream),
        Decision::RetryAfter { delay_secs: 1 }
    );
    // And growth starts over from there.
    assert_eq!(
        backoff.on_attempt_failure(&unreachable_camera()),
        Decision::RetryAfter { delay_secs: 2 }
    );
}

#[test]
fn fatal_device_failure_gives_the_stream_up() {
    let mut backoff = Backoff::new();
    let failure = AttemptFailure {
        connected: false,
        error: StreamError::Fatal(FatalKind::DeviceUnavailable),
    };
    assert_eq!(backoff.on_attempt_failure(&failure), Decision::Abort);
}

#[test]
fn only_transient_failures_are_retried() {
    assert!(StreamError::AuthRejected.is_permanent());
    assert!(StreamError::Fatal(FatalKind::DeviceUnavailable).is_permanent());
    let transients = [
        TransientKind::ConnectFailure,
        TransientKind::SessionDropped,
        TransientKind::ProtocolDesync,
        TransientKind::SinkUnsupportedFormat,
        TransientKind::SinkHandshakeFailure,
        TransientKind::BootstrapExhausted,
    ];
    for kind in transients {
        assert!(!StreamError::Transient(kind).is_permanent());
    }
}
