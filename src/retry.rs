use vstd::prelude::*;

use crate::error::FlowerError;

verus! {

/// Seconds to wait between two connection attempts.
pub const RETRY_DELAY_SECS: u64 = 5;

/// Where a bounded-retry connection stands.
#[derive(Clone, Copy, Debug, PartialEq, Eq, Structural)]
pub enum RetryPhase {
    /// An attempt is due or under way.
    Connecting,
    /// The last attempt failed; the fixed delay runs before the next one.
    Waiting,
    /// An attempt succeeded.
    Connected,
    /// Every allowed attempt failed.
    TimedOut,
}

/// What the transport reports back to the retry logic.
#[derive(Clone, Copy, Debug, PartialEq, Eq, Structural)]
pub enum RetryEvent {
    ConnectSucceeded,
    ConnectFailed,
    DelayElapsed,
}

/// What the caller must do next.
#[derive(Clone, Copy, Debug, PartialEq, Eq, Structural)]
pub enum RetryAction {
    /// Make one connection attempt and report its outcome.
    Connect,
    /// Wait `RETRY_DELAY_SECS` seconds and report `DelayElapsed`.
    Wait,
    /// The device is connected.
    Succeed,
    /// Give up with `ConnectionTimeout`.
    GiveUp,
}

/// The decisions of a bounded-retry connect: at most `max_attempts`
/// attempts, with the fixed delay between two attempts and none after the
/// last. `attempts` counts the attempts started so far.
#[derive(Clone, Copy, Debug, PartialEq, Eq, Structural)]
pub struct ConnectRetry {
    pub max_attempts: u8,
    pub attempts: u8,
    pub phase: RetryPhase,
}

/// The state a retry starts in.
pub open spec fn new_retry_spec(max_attempts: u8) -> ConnectRetry {
    if max_attempts == 0 {
        ConnectRetry { max_attempts, attempts: 0, phase: RetryPhase::TimedOut }
    } else {
        ConnectRetry { max_attempts, attempts: 1, phase: RetryPhase::Connecting }
    }
}

impl ConnectRetry {
    pub open spec fn wf(&self) -> bool {
        match self.phase {
            RetryPhase::Connecting => 1 <= self.attempts <= self.max_attempts,
            RetryPhase::Connected => 1 <= self.attempts <= self.max_attempts,
            RetryPhase::Waiting => 1 <= self.attempts < self.max_attempts,
            RetryPhase::TimedOut => self.attempts == self.max_attempts,
        }
    }

    /// The state after `e`. Events that do not fit the phase change nothing.
    pub open spec fn next_spec(self, e: RetryEvent) -> ConnectRetry {
        match (self.phase, e) {
            (RetryPhase::Connecting, RetryEvent::ConnectSucceeded) => ConnectRetry {
                phase: RetryPhase::Connected,
                ..self
            },
            (RetryPhase::Connecting, RetryEvent::ConnectFailed) => if self.attempts
                < self.max_attempts {
                ConnectRetry { phase: RetryPhase::Waiting, ..self }
            } else {
                ConnectRetry { phase: RetryPhase::TimedOut, ..self }
            },
            (RetryPhase::Waiting, RetryEvent::DelayElapsed) => ConnectRetry {
                phase: RetryPhase::Connecting,
                attempts: (self.attempts + 1) as u8,
                ..self
            },
            _ => self,
        }
    }

    pub open spec fn action_spec(self) -> RetryAction {
        match self.phase {
            RetryPhase::Connecting => RetryAction::Connect,
            RetryPhase::Waiting => RetryAction::Wait,
            RetryPhase::Connected => RetryAction::Succeed,
            RetryPhase::TimedOut => RetryAction::GiveUp,
        }
    }

    pub open spec fn outcome_spec(self) -> Option<Result<(), FlowerError>> {
        match self.phase {
            RetryPhase::Connected => Some(Ok(())),
            RetryPhase::TimedOut => Some(Err(FlowerError::ConnectionTimeout)),
            _ => None,
        }
    }

    /// Starts a retry that allows `max_attempts` attempts; with none allowed
    /// it has timed out at once.
    pub fn new(max_attempts: u8) -> (r: ConnectRetry)
        ensures
            r == new_retry_spec(max_attempts),
            r.wf(),
    {
        if max_attempts == 0 {
            ConnectRetry { max_attempts, attempts: 0, phase: RetryPhase::TimedOut }
        } else {
            ConnectRetry { max_attempts, attempts: 1, phase: RetryPhase::Connecting }
        }
    }

    /// What the caller must do in the current state.
    pub fn action(&self) -> (r: RetryAction)
        ensures
            r == self.action_spec(),
    {
        match self.phase {
            RetryPhase::Connecting => RetryAction::Connect,
            RetryPhase::Waiting => RetryAction::Wait,
            RetryPhase::Connected => RetryAction::Succeed,
            RetryPhase::TimedOut => RetryAction::GiveUp,
        }
    }

    /// The result once the retry has ended: `Ok` when connected,
    /// `ConnectionTimeout` when every attempt failed, `None` before that.
    pub fn outcome(&self) -> (r: Option<Result<(), FlowerError>>)
        ensures
            r == self.outcome_spec(),
    {
        match self.phase {
            RetryPhase::Connected => Some(Ok(())),
            RetryPhase::TimedOut => Some(Err(FlowerError::ConnectionTimeout)),
            _ => None,
        }
    }

    /// Takes in what the transport reported.
    pub fn on_event(&mut self, e: RetryEvent)
        requires
            old(self).wf(),
        ensures
            *final(self) == old(self).next_spec(e),
            final(self).wf(),
    {
        match (self.phase, e) {
            (RetryPhase::Connecting, RetryEvent::ConnectSucceeded) => {
                self.phase = RetryPhase::Connected;
            },
            (RetryPhase::Connecting, RetryEvent::ConnectFailed) => {
                if self.attempts < self.max_attempts {
                    self.phase = RetryPhase::Waiting;
                } else {
                    self.phase = RetryPhase::TimedOut;
                }
            },
            (RetryPhase::Waiting, RetryEvent::DelayElapsed) => {
                self.phase = RetryPhase::Connecting;
                self.attempts = self.attempts + 1;
            },
            _ => {},
        }
    }
}

/// Runs the retry against a transport whose successive attempts succeed or
/// fail as `outcomes` says, until it ends or the outcomes run out. Gives the
/// final state and the number of delays waited.
pub open spec fn run_retry(s: ConnectRetry, outcomes: Seq<bool>) -> (ConnectRetry, nat)
    decreases outcomes.len(),
{
    if s.phase is Connecting && outcomes.len() > 0 {
        let e = if outcomes[0] {
            RetryEvent::ConnectSucceeded
        } else {
            RetryEvent::ConnectFailed
        };
        let s1 = s.next_spec(e);
        if s1.phase is Waiting {
            let r = run_retry(s1.next_spec(RetryEvent::DelayElapsed), outcomes.drop_first());
            (r.0, r.1 + 1)
        } else {
            (s1, 0)
        }
    } else {
        (s, 0)
    }
}

proof fn lemma_run_succeeds_from(s: ConnectRetry, outcomes: Seq<bool>, k: int)
    requires
        s.wf(),
        s.phase is Connecting,
        1 <= k <= outcomes.len(),
        s.attempts + k - 1 <= s.max_attempts,
        outcomes[k - 1],
        forall|i: int| 0 <= i < k - 1 ==> !outcomes[i],
    ensures
        run_retry(s, outcomes).0.phase is Connected,
        run_retry(s, outcomes).0.attempts == s.attempts + k - 1,
        run_retry(s, outcomes).1 == k - 1,
    decreases outcomes.len(),
{
    if k > 1 {
        let s1 = s.next_spec(RetryEvent::ConnectFailed);
        let s2 = s1.next_spec(RetryEvent::DelayElapsed);
        let rest = outcomes.drop_first();
        assert forall|i: int| 0 <= i < k - 2 implies !rest[i] by {
            assert(rest[i] == outcomes[i + 1]);
        }
        lemma_run_succeeds_from(s2, rest, k - 1);
    }
}

proof fn lemma_run_times_out_from(s: ConnectRetry, outcomes: Seq<bool>)
    requires
        s.wf(),
        s.phase is Connecting,
        outcomes.len() >= s.max_attempts - s.attempts + 1,
        forall|i: int| 0 <= i <= s.max_attempts - s.attempts ==> !outcomes[i],
    ensures
        run_retry(s, outcomes).0.phase is TimedOut,
        run_retry(s, outcomes).0.attempts == s.max_attempts,
        run_retry(s, outcomes).1 == s.max_attempts - s.attempts,
    decreases outcomes.len(),
{
    if s.attempts < s.max_attempts {
        let s1 = s.next_spec(RetryEvent::ConnectFailed);
        let s2 = s1.next_spec(RetryEvent::DelayElapsed);
        let rest = outcomes.drop_first();
        assert forall|i: int| 0 <= i <= s2.max_attempts - s2.attempts implies !rest[i] by {
            assert(rest[i] == outcomes[i + 1]);
        }
        lemma_run_times_out_from(s2, rest);
    }
}

/// With `max_attempts` attempts allowed, a transport whose first `k - 1`
/// attempts fail and whose `k`-th succeeds, for `k <= max_attempts`, is
/// connected after exactly `k` attempts and `k - 1` delays.
pub proof fn lemma_retry_succeeds_on_attempt(max_attempts: u8, outcomes: Seq<bool>, k: int)
    requires
        1 <= k <= max_attempts,
        k <= outcomes.len(),
        outcomes[k - 1],
        forall|i: int| 0 <= i < k - 1 ==> !outcomes[i],
    ensures
        run_retry(new_retry_spec(max_attempts), outcomes).0.outcome_spec() == Some(
            Ok::<(), FlowerError>(()),
        ),
        run_retry(new_retry_spec(max_attempts), outcomes).0.attempts == k,
        run_retry(new_retry_spec(max_attempts), outcomes).1 == k - 1,
{
    lemma_run_succeeds_from(new_retry_spec(max_attempts), outcomes, k);
}

/// With `max_attempts` attempts allowed, a transport whose attempts all
/// fail ends in `ConnectionTimeout` after exactly `max_attempts` attempts,
/// with a delay between each two of them.
pub proof fn lemma_retry_exhausts_attempts(max_attempts: u8, outcomes: Seq<bool>)
    requires
        outcomes.len() >= max_attempts,
        forall|i: int| 0 <= i < max_attempts ==> !outcomes[i],
    ensures
        run_retry(new_retry_spec(max_attempts), outcomes).0.outcome_spec() == Some(
            Err::<(), FlowerError>(FlowerError::ConnectionTimeout),
        ),
        run_retry(new_retry_spec(max_attempts), outcomes).0.attempts == max_attempts,
        run_retry(new_retry_spec(max_attempts), outcomes).1 == if max_attempts == 0 {
            0
        } else {
            max_attempts - 1
        },
{
    if max_attempts > 0 {
        lemma_run_times_out_from(new_retry_spec(max_attempts), outcomes);
    }
}

} // verus!
