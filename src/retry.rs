//! Connecting to the store with bounded retries and exponential backoff.
//!
//! The decisions live here as a state machine; the caller performs each
//! connect attempt and each wait, and reports every attempt's outcome.
use vstd::prelude::*;

verus! {

/// How many failed attempts are retried by default.
pub const DEFAULT_MAX_ATTEMPTS: u32 = 5;

/// The default delay before the first retry, in milliseconds.
pub const DEFAULT_BASE_DELAY_MS: u64 = 500;

/// 2 to the power `n`.
pub open spec fn two_pow(n: nat) -> nat
    decreases n,
{
    if n == 0 {
        1
    } else {
        2 * two_pow((n - 1) as nat)
    }
}

/// The wait before retrying after failed attempt number `attempt` (from 0):
/// `base * 2^attempt`.
pub open spec fn backoff(base: nat, attempt: nat) -> nat {
    base * two_pow(attempt)
}

proof fn lemma_two_pow_monotone(a: nat, b: nat)
    requires
        a <= b,
    ensures
        two_pow(a) <= two_pow(b),
    decreases b,
{
    if a < b {
        lemma_two_pow_monotone(a, (b - 1) as nat);
    }
}

/// The retry budget: failed attempts numbered below `max_attempts` are
/// retried after a backoff; the next failure is final.
#[derive(Clone, Copy, Debug, PartialEq, Eq, Structural)]
pub struct RetryPolicy {
    pub max_attempts: u32,
    pub base_delay_ms: u64,
}

impl RetryPolicy {
    /// Every backoff this policy can ask for fits in a `u64`.
    pub open spec fn wf(&self) -> bool {
        self.max_attempts == 0 || backoff(
            self.base_delay_ms as nat,
            (self.max_attempts - 1) as nat,
        ) <= u64::MAX
    }

    /// Five retries, starting at 500 ms.
    pub fn standard() -> (r: RetryPolicy)
        ensures
            r.max_attempts == DEFAULT_MAX_ATTEMPTS,
            r.base_delay_ms == DEFAULT_BASE_DELAY_MS,
            r.wf(),
    {
        proof {
            reveal_with_fuel(two_pow, 5);
        }
        assert(two_pow(4) == 16);
        RetryPolicy { max_attempts: DEFAULT_MAX_ATTEMPTS, base_delay_ms: DEFAULT_BASE_DELAY_MS }
    }

    /// A policy with the given budget and base delay.
    pub fn new(max_attempts: u32, base_delay_ms: u64) -> (r: RetryPolicy)
        requires
            (RetryPolicy { max_attempts, base_delay_ms }).wf(),
        ensures
            r.max_attempts == max_attempts,
            r.base_delay_ms == base_delay_ms,
            r.wf(),
    {
        RetryPolicy { max_attempts, base_delay_ms }
    }

    /// The wait after failed attempt number `attempt`, in milliseconds.
    pub fn delay_ms(&self, attempt: u32) -> (r: u64)
        requires
            self.wf(),
            attempt < self.max_attempts,
        ensures
            r == backoff(self.base_delay_ms as nat, attempt as nat),
    {
        proof {
            lemma_two_pow_monotone(attempt as nat, (self.max_attempts - 1) as nat);
            vstd::arithmetic::mul::lemma_mul_inequality(
                two_pow(attempt as nat) as int,
                two_pow((self.max_attempts - 1) as nat) as int,
                self.base_delay_ms as int,
            );
            assert(two_pow(0) == 1);
        }
        let mut d: u64 = self.base_delay_ms;
        let mut i: u32 = 0;
        while i < attempt
            invariant
                i <= attempt,
                d == backoff(self.base_delay_ms as nat, i as nat),
                backoff(self.base_delay_ms as nat, attempt as nat) <= u64::MAX,
            decreases attempt - i,
        {
            proof {
                lemma_two_pow_monotone((i + 1) as nat, attempt as nat);
                vstd::arithmetic::mul::lemma_mul_inequality(
                    two_pow((i + 1) as nat) as int,
                    two_pow(attempt as nat) as int,
                    self.base_delay_ms as int,
                );
                let b = self.base_delay_ms as nat;
                let t = two_pow(i as nat);
                assert(two_pow((i + 1) as nat) == 2 * t);
                assert(b * (2 * t) == 2 * (b * t)) by (nonlinear_arith);
            }
            d = d * 2;
            i = i + 1;
        }
        d
    }
}

/// Where the connection to the store stands.
#[derive(Clone, Copy, Debug, PartialEq, Eq, Structural)]
pub enum ConnectionState {
    /// No attempt made yet.
    Disconnected,
    /// Attempt number `attempt` (from 0) is under way.
    Connecting { attempt: u32 },
    /// An attempt succeeded; held for the life of the process.
    Connected,
    /// The retry budget ran out; terminal.
    Failed,
}

/// What the caller does next.
#[derive(Clone, Copy, Debug, PartialEq, Eq, Structural)]
pub enum RetryAction {
    /// Make a connect attempt.
    Attempt,
    /// Wait this many milliseconds, then make the next attempt.
    Wait { delay_ms: u64 },
    /// The connection is up: use it.
    Done,
    /// Stop and report the last attempt's error; startup fails.
    GiveUp,
}

/// The next state and action once an attempt made in state `s` has
/// succeeded (`connected`) or failed. An outcome reported before any attempt
/// was announced counts as that of attempt 0.
pub open spec fn step(p: RetryPolicy, s: ConnectionState, connected: bool) -> (
    ConnectionState,
    RetryAction,
) {
    let attempt: u32 = match s {
        ConnectionState::Connecting { attempt } => attempt,
        _ => 0,
    };
    match s {
        ConnectionState::Connected => (ConnectionState::Connected, RetryAction::Done),
        ConnectionState::Failed => (ConnectionState::Failed, RetryAction::GiveUp),
        _ => if connected {
            (ConnectionState::Connected, RetryAction::Done)
        } else if attempt < p.max_attempts {
            (
                ConnectionState::Connecting { attempt: (attempt + 1) as u32 },
                RetryAction::Wait {
                    delay_ms: backoff(p.base_delay_ms as nat, attempt as nat) as u64,
                },
            )
        } else {
            (ConnectionState::Failed, RetryAction::GiveUp)
        },
    }
}

/// The final state and the actions taken when the attempts made from state
/// `s` have the outcomes `outcomes`, in order.
pub open spec fn run(p: RetryPolicy, s: ConnectionState, outcomes: Seq<bool>) -> (
    ConnectionState,
    Seq<RetryAction>,
)
    decreases outcomes.len(),
{
    if outcomes.len() == 0 {
        (s, Seq::empty())
    } else {
        let (next, action) = step(p, s, outcomes[0]);
        let (last, actions) = run(p, next, outcomes.drop_first());
        (last, seq![action] + actions)
    }
}

/// `n` refused attempts.
pub open spec fn refusals(n: nat) -> Seq<bool> {
    Seq::new(n, |i: int| false)
}

/// The waits after failed attempts `from`, `from + 1`, ... (`n` of them).
pub open spec fn waits(p: RetryPolicy, from: nat, n: nat) -> Seq<RetryAction> {
    Seq::new(
        n,
        |i: int| RetryAction::Wait { delay_ms: backoff(p.base_delay_ms as nat, (from + i) as nat) as u64 },
    )
}

/// Drives the connection state: told the outcome of each attempt, it says
/// whether to wait and retry, to use the connection, or to give up.
pub struct Connector {
    policy: RetryPolicy,
    state: ConnectionState,
}

impl Connector {
    #[verifier::type_invariant]
    spec fn inv(&self) -> bool {
        &&& self.policy.wf()
        &&& match self.state {
            ConnectionState::Connecting { attempt } => attempt <= self.policy.max_attempts,
            _ => true,
        }
    }

    pub closed spec fn policy(&self) -> RetryPolicy {
        self.policy
    }

    pub closed spec fn state(&self) -> ConnectionState {
        self.state
    }

    /// A connector that has made no attempt yet.
    pub fn new(policy: RetryPolicy) -> (r: Connector)
        requires
            policy.wf(),
        ensures
            r.policy() == policy,
            r.state() == ConnectionState::Disconnected,
    {
        Connector { policy, state: ConnectionState::Disconnected }
    }

    /// The current state.
    pub fn current(&self) -> (r: ConnectionState)
        ensures
            r == self.state(),
    {
        self.state
    }

    /// Announces the first attempt: `Disconnected` becomes `Connecting` at
    /// attempt 0; any other state stays as it is.
    pub fn begin(&mut self) -> (r: RetryAction)
        ensures
            final(self).policy() == old(self).policy(),
            final(self).state() == (match old(self).state() {
                ConnectionState::Disconnected => ConnectionState::Connecting { attempt: 0 },
                s => s,
            }),
            r == (match old(self).state() {
                ConnectionState::Connected => RetryAction::Done,
                ConnectionState::Failed => RetryAction::GiveUp,
                _ => RetryAction::Attempt,
            }),
    {
        proof {
            use_type_invariant(&*self);
        }
        match self.state {
            ConnectionState::Disconnected => {
                self.state = ConnectionState::Connecting { attempt: 0 };
                RetryAction::Attempt
            },
            ConnectionState::Connecting { .. } => RetryAction::Attempt,
            ConnectionState::Connected => RetryAction::Done,
            ConnectionState::Failed => RetryAction::GiveUp,
        }
    }

    /// Records the outcome of the attempt under way and says what to do next.
    pub fn on_attempt(&mut self, connected: bool) -> (r: RetryAction)
        ensures
            final(self).policy() == old(self).policy(),
            (final(self).state(), r) == step(old(self).policy(), old(self).state(), connected),
    {
        proof {
            use_type_invariant(&*self);
        }
        let attempt: u32 = match self.state {
            ConnectionState::Connecting { attempt } => attempt,
            _ => 0,
        };
        match self.state {
            ConnectionState::Connected => RetryAction::Done,
            ConnectionState::Failed => RetryAction::GiveUp,
            _ => {
                if connected {
                    self.state = ConnectionState::Connected;
                    RetryAction::Done
                } else if attempt < self.policy.max_attempts {
                    let delay_ms = self.policy.delay_ms(attempt);
                    self.state = ConnectionState::Connecting { attempt: attempt + 1 };
                    RetryAction::Wait { delay_ms }
                } else {
                    self.state = ConnectionState::Failed;
                    RetryAction::GiveUp
                }
            },
        }
    }
}

proof fn lemma_connects_from(p: RetryPolicy, j: nat, k: nat)
    requires
        p.wf(),
        j + k <= p.max_attempts,
    ensures
        run(p, ConnectionState::Connecting { attempt: j as u32 }, refusals(k).push(true)) == (
            ConnectionState::Connected,
            waits(p, j, k).push(RetryAction::Done),
        ),
    decreases k,
{
    let s = ConnectionState::Connecting { attempt: j as u32 };
    let outcomes = refusals(k).push(true);
    assert(outcomes[0] == (k == 0));
    if k == 0 {
        assert(outcomes.drop_first() =~= Seq::<bool>::empty());
        assert(step(p, s, true) == (ConnectionState::Connected, RetryAction::Done));
        assert(run(p, ConnectionState::Connected, Seq::<bool>::empty()).1 =~= Seq::<RetryAction>::empty());
        assert(seq![RetryAction::Done] + Seq::<RetryAction>::empty() =~= waits(p, j, k).push(
            RetryAction::Done,
        ));
        assert(run(p, s, outcomes).0 == ConnectionState::Connected);
        assert(run(p, s, outcomes).1 == waits(p, j, k).push(RetryAction::Done));
    } else {
        assert(outcomes.drop_first() =~= refusals((k - 1) as nat).push(true));
        lemma_connects_from(p, j + 1, (k - 1) as nat);
        assert(step(p, s, false).0 == ConnectionState::Connecting { attempt: (j + 1) as u32 });
        let first = RetryAction::Wait { delay_ms: backoff(p.base_delay_ms as nat, j) as u64 };
        assert(step(p, s, false).1 == first);
        assert(seq![first] + waits(p, j + 1, (k - 1) as nat).push(RetryAction::Done) =~= waits(
            p,
            j,
            k,
        ).push(RetryAction::Done));
        assert(run(p, s, outcomes).0 == ConnectionState::Connected);
        assert(run(p, s, outcomes).1 == waits(p, j, k).push(RetryAction::Done));
    }
}

proof fn lemma_gives_up_from(p: RetryPolicy, j: nat)
    requires
        p.wf(),
        j <= p.max_attempts,
    ensures
        run(
            p,
            ConnectionState::Connecting { attempt: j as u32 },
            refusals((p.max_attempts - j + 1) as nat),
        ) == (
            ConnectionState::Failed,
            waits(p, j, (p.max_attempts - j) as nat).push(RetryAction::GiveUp),
        ),
    decreases p.max_attempts - j,
{
    let n = (p.max_attempts - j) as nat;
    let outcomes = refusals(n + 1);
    assert(outcomes[0] == false);
    let s = ConnectionState::Connecting { attempt: j as u32 };
    if j == p.max_attempts {
        assert(outcomes.drop_first() =~= Seq::<bool>::empty());
        assert(step(p, s, false) == (ConnectionState::Failed, RetryAction::GiveUp));
        assert(run(p, ConnectionState::Failed, Seq::<bool>::empty()).1 =~= Seq::<RetryAction>::empty());
        assert(seq![RetryAction::GiveUp] + Seq::<RetryAction>::empty() =~= waits(p, j, n).push(
            RetryAction::GiveUp,
        ));
        assert(run(p, s, outcomes).0 == ConnectionState::Failed);
        assert(run(p, s, outcomes).1 == waits(p, j, n).push(RetryAction::GiveUp));
    } else {
        assert(outcomes.drop_first() =~= refusals(n));
        lemma_gives_up_from(p, j + 1);
        assert(step(p, s, false).0 == ConnectionState::Connecting { attempt: (j + 1) as u32 });
        let first = RetryAction::Wait { delay_ms: backoff(p.base_delay_ms as nat, j) as u64 };
        assert(step(p, s, false).1 == first);
        assert(seq![first] + waits(p, j + 1, (n - 1) as nat).push(RetryAction::GiveUp) =~= waits(
            p,
            j,
            n,
        ).push(RetryAction::GiveUp));
        assert(run(p, s, outcomes).0 == ConnectionState::Failed);
        assert(run(p, s, outcomes).1 == waits(p, j, n).push(RetryAction::GiveUp));
    }
}

/// When the first `k` attempts are refused (`k` within the budget) and the
/// next one is accepted, the connector waits exactly `base * 2^i` after each
/// failed attempt `i < k`, then reports the connection as established.
pub proof fn lemma_connects_after_refusals(p: RetryPolicy, k: nat)
    requires
        p.wf(),
        k <= p.max_attempts,
    ensures
        run(p, ConnectionState::Connecting { attempt: 0 }, refusals(k).push(true)) == (
            ConnectionState::Connected,
            waits(p, 0, k).push(RetryAction::Done),
        ),
{
    lemma_connects_from(p, 0, k);
}

/// When every attempt is refused, the connector gives up after
/// `max_attempts + 1` attempts, having waited `base * 2^i` after each failed
/// attempt `i < max_attempts` and not after the last one.
pub proof fn lemma_gives_up_when_always_refused(p: RetryPolicy)
    requires
        p.wf(),
    ensures
        run(
            p,
            ConnectionState::Connecting { attempt: 0 },
            refusals((p.max_attempts + 1) as nat),
        ) == (
            ConnectionState::Failed,
            waits(p, 0, p.max_attempts as nat).push(RetryAction::GiveUp),
        ),
{
    lemma_gives_up_from(p, 0);
}

proof fn lemma_settles_from(p: RetryPolicy, s: ConnectionState, outcomes: Seq<bool>)
    requires
        p.wf(),
        match s {
            ConnectionState::Connecting { attempt } => attempt <= p.max_attempts
                && outcomes.len() >= p.max_attempts - attempt + 1,
            ConnectionState::Disconnected => false,
            _ => true,
        },
    ensures
        run(p, s, outcomes).0 is Connected || run(p, s, outcomes).0 is Failed,
    decreases outcomes.len(),
{
    if outcomes.len() > 0 {
        lemma_settles_from(p, step(p, s, outcomes[0]).0, outcomes.drop_first());
    }
}

/// Whatever the outcomes of the first `max_attempts + 1` attempts, the
/// connector has by then either connected or given up for good: the retry
/// loop cannot run on indefinitely.
pub proof fn lemma_settles_within_budget(p: RetryPolicy, outcomes: Seq<bool>)
    requires
        p.wf(),
        outcomes.len() == p.max_attempts + 1,
    ensures
        run(p, ConnectionState::Connecting { attempt: 0 }, outcomes).0 is Connected || run(
            p,
            ConnectionState::Connecting { attempt: 0 },
            outcomes,
        ).0 is Failed,
{
    lemma_settles_from(p, ConnectionState::Connecting { attempt: 0 }, outcomes);
}

} // verus!
