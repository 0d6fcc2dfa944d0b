//! Connection supervisor: classifies how a connection attempt ended and
//! decides, through an exponential-backoff state, whether the attempt is
//! retried and after what delay, or whether the stream is abandoned for good.

use vstd::prelude::*;

verus! {

/// The transient ways a connection attempt or a live stream can fail.
/// Every one of these is retried; none of them ends the supervisor.
#[derive(Clone, Copy, Debug, PartialEq, Eq, Structural)]
pub enum TransientKind {
    /// The camera could not be reached or the session could not be opened.
    ConnectFailure,
    /// A live session ended or was closed by the peer.
    SessionDropped,
    /// The session produced data the protocol layer could not interpret.
    ProtocolDesync,
    /// The sink rejected the declared geometry / codec combination.
    SinkUnsupportedFormat,
    /// The buffer handshake with the sink failed.
    SinkHandshakeFailure,
    /// Format negotiation ran out of its unit budget before the stream's
    /// geometry, frame rate and codec were all known.
    BootstrapExhausted,
}

/// The failures no amount of reconnecting can mend: the stream must be given
/// up and the caller told.
#[derive(Clone, Copy, Debug, PartialEq, Eq, Structural)]
pub enum FatalKind {
    /// The video-output device cannot be opened; recreating its binding
    /// takes process-level intervention, so retrying the stream is useless.
    DeviceUnavailable,
}

/// Everything that can end one connection attempt, split so that the
/// supervisor's retry-or-abort choice is exhaustive: an authentication
/// rejection and a fatal failure are permanent, everything else is
/// transient.
#[derive(Clone, Copy, Debug, PartialEq, Eq, Structural)]
pub enum StreamError {
    /// The camera rejected the credentials; never retried.
    AuthRejected,
    /// A retryable failure, with its cause.
    Transient(TransientKind),
    /// An unrecoverable failure, with its cause; never retried.
    Fatal(FatalKind),
}

impl StreamError {
    /// A permanent error ends the supervisor; a transient one is retried.
    pub fn is_permanent(&self) -> (r: bool)
        ensures
            r == !(*self is Transient),
    {
        match self {
            StreamError::AuthRejected => true,
            StreamError::Transient(_) => false,
            StreamError::Fatal(_) => true,
        }
    }
}

/// How one failed connection attempt reports itself to the supervisor.
#[derive(Clone, Copy, Debug, PartialEq, Eq, Structural)]
pub struct AttemptFailure {
    /// The attempt had authenticated and gone live before it failed. A drop
    /// of a working stream is retried promptly; an unreachable camera backs
    /// off instead.
    pub connected: bool,
    /// The error that ended the attempt.
    pub error: StreamError,
}

/// Shortest retry delay, in seconds.
pub const MIN_BACKOFF_SECS: u64 = 1;

/// Longest retry delay, in seconds.
pub const MAX_BACKOFF_SECS: u64 = 15;

/// The supervisor's retry-delay state. The delay doubles after every failed
/// attempt since the last successful authenticated connection, capped at
/// [`MAX_BACKOFF_SECS`], and resets to [`MIN_BACKOFF_SECS`] whenever an
/// attempt had gone live before failing.
#[derive(Clone, Copy, Debug, PartialEq, Eq, Structural)]
pub struct Backoff {
    /// The delay, in seconds, the next transient failure will wait.
    pub current_secs: u64,
}

/// What the supervisor does after a failed attempt: give the stream up for
/// good, or sleep and reconnect.
#[derive(Clone, Copy, Debug, PartialEq, Eq, Structural)]
pub enum Decision {
    /// The failure was permanent: no further attempt is made.
    Abort,
    /// Sleep this many seconds, then reconnect.
    RetryAfter { delay_secs: u64 },
}

/// One supervisor step as a mathematical function: the backoff state after a
/// failed attempt, and the decision taken. A live-then-broken attempt first
/// resets the delay; a permanent error (authentication rejection or fatal
/// failure) aborts; a transient one retries after the current delay and
/// doubles it, capped.
pub open spec fn supervise_spec(b: Backoff, f: AttemptFailure) -> (Backoff, Decision) {
    let reset = if f.connected {
        Backoff { current_secs: MIN_BACKOFF_SECS }
    } else {
        b
    };
    if !(f.error is Transient) {
        (reset, Decision::Abort)
    } else {
        let delay = reset.current_secs;
        let doubled: u64 = if 2 * delay > MAX_BACKOFF_SECS {
            MAX_BACKOFF_SECS
        } else {
            (2 * delay) as u64
        };
        (Backoff { current_secs: doubled }, Decision::RetryAfter { delay_secs: delay })
    }
}

impl Backoff {
    /// The delay always stays between the two bounds.
    pub open spec fn wf(self) -> bool {
        MIN_BACKOFF_SECS <= self.current_secs <= MAX_BACKOFF_SECS
    }

    /// A fresh supervisor starts at the shortest delay.
    pub fn new() -> (b: Backoff)
        ensures
            b.wf(),
            b.current_secs == MIN_BACKOFF_SECS,
    {
        Backoff { current_secs: MIN_BACKOFF_SECS }
    }

    /// Classify a failed attempt and decide what follows it. An
    /// authentication rejection or a fatal failure is permanent and aborts
    /// the supervisor; every transient failure is retried, after
    /// [`MIN_BACKOFF_SECS`] if the attempt had been live, after the
    /// accumulated delay otherwise.
    pub fn on_attempt_failure(&mut self, f: &AttemptFailure) -> (d: Decision)
        requires
            old(self).wf(),
        ensures
            final(self).wf(),
            (*final(self), d) == supervise_spec(*old(self), *f),
            !(f.error is Transient) ==> d is Abort,
            f.error is Transient ==> (d matches Decision::RetryAfter { delay_secs }
                && delay_secs == if f.connected {
                    MIN_BACKOFF_SECS as int
                } else {
                    old(self).current_secs as int
                }),
    {
        if f.connected {
            self.current_secs = MIN_BACKOFF_SECS;
        }
        match f.error {
            StreamError::AuthRejected => Decision::Abort,
            StreamError::Fatal(_) => Decision::Abort,
            StreamError::Transient(_) => {
                let delay = self.current_secs;
                let doubled: u64 = if delay > MAX_BACKOFF_SECS / 2 {
                    MAX_BACKOFF_SECS
                } else {
                    2 * delay
                };
                self.current_secs = doubled;
                Decision::RetryAfter { delay_secs: delay }
            },
        }
    }
}

/// The decisions a supervisor takes over a run of failed attempts, threading
/// the backoff state; an abort ends the run, so nothing follows it.
pub open spec fn decisions_from(b: Backoff, fails: Seq<AttemptFailure>) -> Seq<Decision>
    decreases fails.len(),
{
    if fails.len() == 0 {
        Seq::empty()
    } else {
        let next = supervise_spec(b, fails[0]);
        if next.1 is Abort {
            seq![next.1]
        } else {
            seq![next.1] + decisions_from(next.0, fails.drop_first())
        }
    }
}

/// Powers of two.
pub open spec fn pow2(n: nat) -> nat
    decreases n,
{
    if n == 0 {
        1
    } else {
        2 * pow2((n - 1) as nat)
    }
}

/// The delay the supervisor owes to the failure that follows `n` earlier
/// consecutive transient failures with no success in between:
/// `MIN_BACKOFF_SECS * 2^n`, capped at `MAX_BACKOFF_SECS`.
pub open spec fn expected_delay(n: nat) -> u64 {
    if MIN_BACKOFF_SECS * pow2(n) > MAX_BACKOFF_SECS {
        MAX_BACKOFF_SECS
    } else {
        (MIN_BACKOFF_SECS * pow2(n)) as u64
    }
}

/// Every failure in the run is transient.
pub open spec fn all_transient(fails: Seq<AttemptFailure>) -> bool {
    forall|i: int| 0 <= i < fails.len() ==> (#[trigger] fails[i]).error is Transient
}

/// Every failure in the run is transient and none of the attempts had gone
/// live: the camera was never reached.
pub open spec fn all_unconnected_transient(fails: Seq<AttemptFailure>) -> bool {
    all_transient(fails) && forall|i: int| 0 <= i < fails.len() ==> !(#[trigger] fails[i]).connected
}

/// A supervisor step aborts exactly on a permanent error: an authentication
/// rejection or a fatal failure, never a transient one.
pub proof fn lemma_abort_iff_permanent(b: Backoff, f: AttemptFailure)
    ensures
        supervise_spec(b, f).1 is Abort <==> !(f.error is Transient),
{
}

/// An authentication rejection is permanent: once a run answers an attempt
/// with `Abort`, that decision is the run's last, so the same supervisor
/// never opens a further connection attempt.
pub proof fn lemma_auth_permanence(b: Backoff, fails: Seq<AttemptFailure>, i: int)
    requires
        0 <= i < decisions_from(b, fails).len(),
        decisions_from(b, fails)[i] is Abort,
    ensures
        decisions_from(b, fails).len() == i + 1,
    decreases fails.len(),
{
    let next = supervise_spec(b, fails[0]);
    if next.1 is Abort {
        assert(decisions_from(b, fails).len() == 1);
    } else {
        let rest = decisions_from(next.0, fails.drop_first());
        assert(decisions_from(b, fails) == seq![next.1] + rest);
        assert(i >= 1);
        assert(rest[i - 1] is Abort);
        lemma_auth_permanence(next.0, fails.drop_first(), i - 1);
    }
}

/// Every transient failure is retried: a run of them never ends the
/// supervisor, however long it is — a disconnected camera is expected to
/// eventually return.
pub proof fn lemma_transient_runs_forever(b: Backoff, fails: Seq<AttemptFailure>)
    requires
        all_transient(fails),
    ensures
        decisions_from(b, fails).len() == fails.len(),
    decreases fails.len(),
{
    if fails.len() > 0 {
        let next = supervise_spec(b, fails[0]);
        assert(fails[0].error is Transient);
        assert(forall|i: int|
            0 <= i < fails.drop_first().len() ==> (#[trigger] fails.drop_first()[i])
                == fails[i + 1]);
        lemma_transient_runs_forever(next.0, fails.drop_first());
    }
}

/// Doubling-with-cap carries `expected_delay` from one failure to the next.
proof fn lemma_expected_delay_step(n: nat)
    ensures
        ({
            let d = expected_delay(n);
            (if 2 * d > MAX_BACKOFF_SECS {
                MAX_BACKOFF_SECS as int
            } else {
                2 * d
            }) == expected_delay(n + 1)
        }),
{
    assert(pow2(n + 1) == 2 * pow2(n));
    assert(pow2(n) >= 1) by {
        lemma_pow2_at_least_one(n);
    }
}

/// Powers of two are positive.
proof fn lemma_pow2_at_least_one(n: nat)
    ensures
        pow2(n) >= 1,
    decreases n,
{
    if n > 0 {
        lemma_pow2_at_least_one((n - 1) as nat);
    }
}

/// From a backoff sitting at `expected_delay(n)`, the `i`-th further
/// unconnected transient failure waits `expected_delay(n + i)` seconds.
proof fn lemma_growth_from(n: nat, fails: Seq<AttemptFailure>, i: int)
    requires
        all_unconnected_transient(fails),
        0 <= i < fails.len(),
    ensures
        decisions_from(Backoff { current_secs: expected_delay(n) }, fails)[i]
            == (Decision::RetryAfter { delay_secs: expected_delay((n + i) as nat) }),
    decreases fails.len(),
{
    let b = Backoff { current_secs: expected_delay(n) };
    let next = supervise_spec(b, fails[0]);
    assert(fails[0].error is Transient && !fails[0].connected);
    lemma_expected_delay_step(n);
    assert(next.0 == (Backoff { current_secs: expected_delay(n + 1) }));
    assert(next.1 == (Decision::RetryAfter { delay_secs: expected_delay(n) }));
    assert(all_transient(fails));
    lemma_transient_runs_forever(b, fails);
    let rest = decisions_from(next.0, fails.drop_first());
    assert(decisions_from(b, fails) == seq![next.1] + rest);
    if i >= 1 {
        assert(forall|k: int|
            0 <= k < fails.drop_first().len() ==> (#[trigger] fails.drop_first()[k])
                == fails[k + 1]);
        lemma_growth_from(n + 1, fails.drop_first(), i - 1);
        assert(decisions_from(b, fails)[i] == rest[i - 1]);
    }
}

/// Backoff growth: starting from a fresh supervisor, over any run of
/// consecutive transient failures with no intervening success, the delay of
/// the `i`-th retry (counting from zero) is
/// `min(MIN_BACKOFF_SECS * 2^i, MAX_BACKOFF_SECS)` seconds.
pub proof fn lemma_backoff_growth(fails: Seq<AttemptFailure>, i: int)
    requires
        all_unconnected_transient(fails),
        0 <= i < fails.len(),
    ensures
        decisions_from(Backoff { current_secs: MIN_BACKOFF_SECS }, fails).len() == fails.len(),
        decisions_from(Backoff { current_secs: MIN_BACKOFF_SECS }, fails)[i]
            == (Decision::RetryAfter { delay_secs: expected_delay(i as nat) }),
{
    assert(expected_delay(0) == MIN_BACKOFF_SECS);
    lemma_transient_runs_forever(Backoff { current_secs: MIN_BACKOFF_SECS }, fails);
    lemma_growth_from(0, fails, i);
}

/// Backoff reset: after any successful authenticated connection, the next
/// transient failure's retry delay is `MIN_BACKOFF_SECS` again, whatever the
/// backoff state had grown to.
pub proof fn lemma_backoff_reset(b: Backoff, f: AttemptFailure)
    requires
        f.connected,
        f.error is Transient,
    ensures
        supervise_spec(b, f).1 == (Decision::RetryAfter { delay_secs: MIN_BACKOFF_SECS }),
{
}

} // verus!
