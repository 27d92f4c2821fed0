//! When to try again, when to stop, and which failures end it at once.

use crate::duration;
use crate::duration::Duration;
use vstd::arithmetic::power2::pow2;
use vstd::prelude::*;

verus! {

/// Where a session's link to its server stands.
#[derive(Debug, Clone, Copy, PartialEq, Eq, Structural)]
pub enum LinkState {
    Up,
    /// The server dropped it and the agent is connecting it again.
    Reconnecting,
    /// The user is ending it; a drop now is expected.
    Ending,
}

/// How a session whose server dropped it is brought back.
#[derive(Debug, Clone, Copy, PartialEq, Eq, Structural)]
pub struct ReconnectPolicy {
    /// The wait before the first attempt, doubled after each failure.
    pub first_delay: Duration,
    pub max_delay: Duration,
    /// Measured from the drop. An attempt that could only start after it is not made.
    pub give_up_after: Duration,
    /// One attempt that has not answered by then counts as a transient failure.
    pub attempt_timeout: Duration,
}

#[derive(Debug, Clone, Copy, PartialEq, Eq, Structural)]
pub enum FailureKind {
    /// The server will say the same thing next time: wrong password, no such account.
    Refused,
    /// The server is unreachable or not ready yet.
    Transient,
}

#[derive(Debug, Clone, Copy, PartialEq, Eq, Structural)]
pub enum Next {
    RetryAfter(Duration),
    GiveUp(GiveUp),
}

#[derive(Debug, Clone, Copy, PartialEq, Eq, Structural)]
pub enum GiveUp {
    Refused,
    OutOfTime,
}

/// What a report that the server dropped a session means for it.
#[derive(Debug, Clone, Copy, PartialEq, Eq, Structural)]
pub enum DropAction {
    /// Nobody asked for this: keep the session and bring it back.
    Reconnect,
    /// A reconnect is already running; its own failed attempts report drops too.
    AlreadyReconnecting,
    /// The user is ending the session (deregistering); remove it.
    Remove,
}

/// What an unrequested drop means for a session whose link stands thus.
pub fn on_unrequested_drop(link: LinkState) -> (action: DropAction)
    ensures
        action == match link {
            LinkState::Up => DropAction::Reconnect,
            LinkState::Reconnecting => DropAction::AlreadyReconnecting,
            LinkState::Ending => DropAction::Remove,
        },
{
    match link {
        LinkState::Up => DropAction::Reconnect,
        LinkState::Reconnecting => DropAction::AlreadyReconnecting,
        LinkState::Ending => DropAction::Remove,
    }
}

/// The wait before attempt `attempt`: the first wait doubled that often, and never more than the
/// longest wait.
pub open spec fn wait_within(first: nat, longest: nat, attempt: nat) -> nat {
    let doubled = first * pow2(attempt);
    if doubled <= longest {
        doubled
    } else {
        longest
    }
}

impl ReconnectPolicy {
    /// The policy the agent runs. A deploy resets every socket at once and is back in seconds;
    /// ten minutes covers a slow one without keeping a session up forever.
    pub fn server_reconnect() -> (policy: Self)
        ensures
            policy.is_server_reconnect(),
    {
        ReconnectPolicy {
            first_delay: Duration::from_millis(500),
            max_delay: Duration::from_secs(30),
            give_up_after: Duration::from_secs(600),
            attempt_timeout: Duration::from_secs(30),
        }
    }

    /// The policy the agent runs: waits from half a second to half a minute, attempts of half a
    /// minute, ten minutes in all.
    pub open spec fn is_server_reconnect(self) -> bool {
        &&& self.first_delay.nanos() == 500_000_000
        &&& self.max_delay.nanos() == 30_000_000_000
        &&& self.give_up_after.nanos() == 600_000_000_000
        &&& self.attempt_timeout.nanos() == 30_000_000_000
    }

    /// The wait before attempt `attempt` in nanoseconds.
    pub open spec fn wait(self, attempt: nat) -> nat {
        wait_within(self.first_delay.nanos(), self.max_delay.nanos(), attempt)
    }

    /// The waits before attempts `0` to `attempt`, added up.
    pub open spec fn waited(self, attempt: nat) -> nat
        decreases attempt,
    {
        if attempt == 0 {
            self.wait(0)
        } else {
            self.waited((attempt - 1) as nat) + self.wait(attempt)
        }
    }

    /// Whether attempt `attempt + 1` may still be made, `elapsed` nanoseconds since the drop.
    pub open spec fn may_retry(self, attempt: nat, elapsed: nat) -> bool {
        let next = if attempt < u32::MAX {
            attempt + 1
        } else {
            attempt
        };
        let starts = elapsed + self.wait(next);
        starts <= self.give_up_after.nanos() || self.give_up_after.nanos() >= duration::longest()
    }

    /// The wait before attempt `attempt` (0 is the first).
    pub fn delay_before(&self, attempt: u32) -> (delay: Duration)
        ensures
            delay.nanos() == self.wait(attempt as nat),
    {
        proof {
            use_type_invariant(&self.max_delay);
            lemma_doubled(self.first_delay.nanos(), 0, attempt as nat);
        }
        if self.first_delay.is_zero() {
            return self.first_delay;
        }
        let mut doubled = self.first_delay;
        let mut times: u32 = 0;
        while times < attempt && !doubled.exceeds(&self.max_delay)
            invariant
                times <= attempt,
                doubled.nanos() == self.first_delay.nanos() * pow2(times as nat),
                self.max_delay.nanos() <= duration::longest(),
            decreases attempt - times,
        {
            proof {
                lemma_doubled(self.first_delay.nanos(), times as nat, attempt as nat);
                lemma_doubled(self.first_delay.nanos(), (times + 1) as nat, attempt as nat);
            }
            match doubled.checked_mul(2) {
                Some(next) => {
                    doubled = next;
                },
                None => {
                    return self.max_delay;
                },
            }
            times = times + 1;
        }
        proof {
            lemma_doubled(self.first_delay.nanos(), times as nat, attempt as nat);
        }
        doubled.shorter(&self.max_delay)
    }

    /// After attempt `attempt` failed with `kind`, `elapsed` since the drop.
    pub fn after_failure(&self, attempt: u32, elapsed: Duration, kind: FailureKind) -> (next: Next)
        ensures
            match next {
                Next::GiveUp(GiveUp::Refused) => kind == FailureKind::Refused,
                Next::GiveUp(GiveUp::OutOfTime) => kind == FailureKind::Transient
                    && !self.may_retry(attempt as nat, elapsed.nanos()),
                Next::RetryAfter(delay) => kind == FailureKind::Transient && self.may_retry(
                    attempt as nat,
                    elapsed.nanos(),
                ) && delay.nanos() == self.wait(
                    if attempt < u32::MAX {
                        attempt as nat + 1
                    } else {
                        attempt as nat
                    },
                ),
            },
    {
        if kind == FailureKind::Refused {
            return Next::GiveUp(GiveUp::Refused);
        }
        let delay = self.delay_before(attempt.saturating_add(1));
        if elapsed.saturating_add(&delay).exceeds(&self.give_up_after) {
            return Next::GiveUp(GiveUp::OutOfTime);
        }
        Next::RetryAfter(delay)
    }
}

/// Doubling once more doubles, and doubling more often never shrinks.
pub(crate) proof fn lemma_doubled(first: nat, times: nat, more: nat)
    requires
        times <= more,
    ensures
        first * pow2(times + 1) == 2 * (first * pow2(times)),
        first * pow2(times) <= first * pow2(more),
        pow2(0) == 1,
        first * pow2(0) == first,
        first == 0 ==> first * pow2(more) == 0,
{
    vstd::arithmetic::power2::lemma2_to64();
    vstd::arithmetic::power2::lemma_pow2_unfold(times + 1);
    if times < more {
        vstd::arithmetic::power2::lemma_pow2_strictly_increases(times, more);
    }
    let f = pow2(times) as int;
    let g = pow2(more) as int;
    assert(first * f <= first * g) by (nonlinear_arith)
        requires
            first >= 0,
            f <= g,
    ;
    assert(first * (2 * f) == 2 * (first * f)) by (nonlinear_arith);
}

/// The waits never shrink, never exceed the longest wait, and double until they reach it.
pub proof fn law_waits_double_up_to_the_longest(policy: ReconnectPolicy, attempt: nat)
    ensures
        policy.wait(attempt) <= policy.wait(attempt + 1) <= policy.max_delay.nanos(),
        policy.wait(0) == if policy.first_delay.nanos() <= policy.max_delay.nanos() {
            policy.first_delay.nanos()
        } else {
            policy.max_delay.nanos()
        },
        2 * policy.wait(attempt) <= policy.max_delay.nanos() ==> policy.wait(attempt + 1) == 2
            * policy.wait(attempt),
        2 * policy.wait(attempt) > policy.max_delay.nanos() ==> policy.wait(attempt + 1)
            == policy.max_delay.nanos(),
{
    lemma_doubled(policy.first_delay.nanos(), attempt, attempt + 1);
}

/// No attempt is started after the time is up: a retry that is granted starts within the budget
/// (a budget of the longest span there is leaves nothing to exceed).
pub proof fn law_no_attempt_past_the_budget(policy: ReconnectPolicy, attempt: nat, elapsed: nat)
    requires
        attempt < u32::MAX,
        policy.give_up_after.nanos() < duration::longest(),
        policy.may_retry(attempt, elapsed),
    ensures
        elapsed + policy.wait(attempt + 1) <= policy.give_up_after.nanos(),
{
}

proof fn lemma_server_waited(policy: ReconnectPolicy, attempt: nat)
    requires
        policy.is_server_reconnect(),
        attempt >= 6,
    ensures
        policy.wait(attempt) == 30_000_000_000,
        policy.waited(attempt) == 31_500_000_000 + 30_000_000_000 * (attempt - 5),
    decreases attempt,
{
    vstd::arithmetic::power2::lemma2_to64();
    if attempt == 6 {
        reveal_with_fuel(ReconnectPolicy::waited, 8);
    } else {
        lemma_server_waited(policy, (attempt - 1) as nat);
        law_waits_double_up_to_the_longest(policy, (attempt - 1) as nat);
    }
}

/// The agent's schedule ends: where at least the waits so far have passed, attempt 23 (the
/// twenty-fourth) is the last, and it ends within half a minute of the ten.
pub proof fn law_server_schedule_ends(policy: ReconnectPolicy, attempt: nat, elapsed: nat)
    requires
        policy.is_server_reconnect(),
        attempt < u32::MAX,
        elapsed >= policy.waited(attempt),
    ensures
        policy.may_retry(attempt, elapsed) ==> attempt < 23,
        policy.waited(23) <= 600_000_000_000,
        policy.waited(23) > 600_000_000_000 - 30_000_000_000,
{
    lemma_server_waited(policy, 23);
    if attempt >= 23 {
        lemma_server_waited(policy, attempt);
        lemma_server_waited(policy, attempt + 1);
    }
}

/// Another attempt is made exactly while it can start in time: where the time that has passed and
/// the wait before it are within the budget. A budget of the longest span there is never runs out.
pub proof fn law_retries_while_there_is_time(policy: ReconnectPolicy, attempt: nat, elapsed: nat)
    requires
        attempt < u32::MAX,
    ensures
        policy.may_retry(attempt, elapsed) <==> elapsed + policy.wait(attempt + 1)
            <= policy.give_up_after.nanos() || policy.give_up_after.nanos()
            >= 18_446_744_073_709_551_615_999_999_999,
        policy.may_retry(u32::MAX as nat, elapsed) <==> elapsed + policy.wait(u32::MAX as nat)
            <= policy.give_up_after.nanos() || policy.give_up_after.nanos()
            >= 18_446_744_073_709_551_615_999_999_999,
{
}

/// The agent's policy: half a second to half a minute between attempts of half a minute each, and
/// ten minutes in all; so its waits are half a second, one, two, four, eight, sixteen and then
/// thirty seconds.
pub proof fn law_the_agents_schedule(policy: ReconnectPolicy, attempt: nat)
    requires
        policy.is_server_reconnect(),
    ensures
        policy.wait(0) == 500_000_000,
        attempt < 6 ==> policy.wait(attempt) == 500_000_000 * pow2(attempt),
        attempt >= 6 ==> policy.wait(attempt) == 30_000_000_000,
        policy.give_up_after.nanos() == 600_000_000_000,
        policy.attempt_timeout.nanos() == 30_000_000_000,
{
    vstd::arithmetic::power2::lemma2_to64();
    lemma_doubled(500_000_000, 0, 0);
    if attempt >= 6 {
        lemma_server_waited(policy, attempt);
    } else if attempt == 0 {
    } else if attempt == 1 {
    } else if attempt == 2 {
    } else if attempt == 3 {
    } else if attempt == 4 {
    }
}

/// What a drop means: a link that is up is brought back, one that is being brought back is left
/// alone, and one that its user is ending goes.
pub proof fn law_what_a_drop_means(link: LinkState, action: DropAction)
    requires
        call_ensures(on_unrequested_drop, (link,), action),
    ensures
        action is Reconnect <==> link is Up,
        action is AlreadyReconnecting <==> link is Reconnecting,
        action is Remove <==> link is Ending,
{
}

/// A refusal ends the attempts at once, whatever time is left; any other failure is followed by the
/// next attempt, after its wait, exactly while that can start in time.
pub proof fn law_only_refusals_and_time_end_the_attempts(
    policy: ReconnectPolicy,
    attempt: u32,
    elapsed: Duration,
    kind: FailureKind,
    next: Next,
)
    requires
        attempt < u32::MAX,
        policy.give_up_after.nanos() < 18_446_744_073_709_551_615_999_999_999,
        call_ensures(ReconnectPolicy::after_failure, (&policy, attempt, elapsed, kind), next),
    ensures
        kind is Refused ==> next == Next::GiveUp(GiveUp::Refused),
        kind is Transient && elapsed.nanos() + policy.wait((attempt + 1) as nat)
            <= policy.give_up_after.nanos() ==> (next matches Next::RetryAfter(delay)
            && delay.nanos() == policy.wait((attempt + 1) as nat)),
        kind is Transient && elapsed.nanos() + policy.wait((attempt + 1) as nat)
            > policy.give_up_after.nanos() ==> next == Next::GiveUp(GiveUp::OutOfTime),
{
}

} // verus!
