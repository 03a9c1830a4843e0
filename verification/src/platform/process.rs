//! Waiting for a child process with a hard time limit.
//!
//! The caller polls the child and performs the [`WaitStep`] that follows. A helper process
//! that is stuck is thereby given up at the deadline instead of being waited for forever. Nor is
//! the output of a child that has exited: a process that the child left behind can keep its
//! pipes open.

use vstd::prelude::*;

verus! {

/// Pause between two polls of a running child.
pub const POLL_INTERVAL_MILLIS: u64 = 50;

/// What follows a poll.
#[derive(Clone, Copy, Debug, PartialEq, Eq, Structural)]
pub enum WaitStep {
    /// The child has exited: collect what it wrote, and wait at most that long for the rest.
    Collect { within_nanos: u128 },
    /// The deadline has passed: kill the child and return without its output.
    GiveUp,
    /// Poll again after this pause.
    Sleep { millis: u64 },
}

/// Nanoseconds of the pause between two polls.
pub open spec fn poll_interval_nanos() -> int {
    POLL_INTERVAL_MILLIS * 1_000_000
}

/// How long the output of an exited child is waited for: until the deadline, but at least as
/// long as a pause.
pub open spec fn collect_nanos(elapsed_nanos: int, timeout_nanos: int) -> int {
    if timeout_nanos - elapsed_nanos < poll_interval_nanos() {
        poll_interval_nanos()
    } else {
        timeout_nanos - elapsed_nanos
    }
}

/// What follows a poll that found the child exited or running, that long after the start.
pub open spec fn wait_step(exited: bool, elapsed_nanos: int, timeout_nanos: int) -> WaitStep {
    if exited {
        WaitStep::Collect { within_nanos: collect_nanos(elapsed_nanos, timeout_nanos) as u128 }
    } else if elapsed_nanos >= timeout_nanos {
        WaitStep::GiveUp
    } else {
        WaitStep::Sleep { millis: POLL_INTERVAL_MILLIS }
    }
}

/// Decides what follows a poll of a child that was started `elapsed_nanos` ago.
pub fn next_wait_step(exited: bool, elapsed_nanos: u128, timeout_nanos: u128) -> (r: WaitStep)
    ensures
        r == wait_step(exited, elapsed_nanos as int, timeout_nanos as int),
        r is Collect <==> exited,
        r is GiveUp <==> !exited && elapsed_nanos >= timeout_nanos,
        r matches WaitStep::Sleep { millis } ==> millis == 50,
{
    if exited {
        let pause: u128 = POLL_INTERVAL_MILLIS as u128 * 1_000_000;
        let left: u128 = timeout_nanos.saturating_sub(elapsed_nanos);
        WaitStep::Collect {
            within_nanos: if left < pause {
                pause
            } else {
                left
            },
        }
    } else if elapsed_nanos >= timeout_nanos {
        WaitStep::GiveUp
    } else {
        WaitStep::Sleep { millis: POLL_INTERVAL_MILLIS }
    }
}

/// Law: the output is collected if and only if the child was found exited, however late.
pub proof fn law_exit_is_collected(exited: bool, elapsed_nanos: int, timeout_nanos: int)
    ensures
        wait_step(exited, elapsed_nanos, timeout_nanos) is Collect <==> exited,
{
}

/// Law: the time limit is hard. Output is collected until the deadline at the latest, or for
/// one pause after a poll that comes later than a pause before the deadline.
pub proof fn law_collecting_ends(elapsed_nanos: u128, timeout_nanos: u128)
    ensures
        wait_step(true, elapsed_nanos as int, timeout_nanos as int) matches WaitStep::Collect {
            within_nanos,
        } && (elapsed_nanos + within_nanos <= timeout_nanos || within_nanos
            == poll_interval_nanos()),
{
}

/// Law: a child is given up if and only if it still runs at the deadline or later.
pub proof fn law_given_up_at_deadline(exited: bool, elapsed_nanos: int, timeout_nanos: int)
    ensures
        wait_step(exited, elapsed_nanos, timeout_nanos) == WaitStep::GiveUp <==> !exited
            && elapsed_nanos >= timeout_nanos,
{
}

/// Polls that lie a pause apart are that late at least.
proof fn lemma_polls_are_apart(polls: Seq<int>, k: int)
    requires
        0 <= k < polls.len(),
        polls[0] >= 0,
        forall|i: int|
            0 <= i < polls.len() - 1 ==> #[trigger] polls[i] + poll_interval_nanos() <= polls[i
                + 1],
    ensures
        polls[k] >= k * poll_interval_nanos(),
    decreases k,
{
    if k > 0 {
        lemma_polls_are_apart(polls, k - 1);
        assert(polls[k - 1] + poll_interval_nanos() <= polls[k]);
        assert(k * poll_interval_nanos() == (k - 1) * poll_interval_nanos()
            + poll_interval_nanos()) by (nonlinear_arith);
    }
}

/// Law: waiting ends. If each pause lasts as long as it should, then of the polls at the times
/// `polls` after the start, one whose number of pauses covers the timeout is the last.
pub proof fn law_waiting_ends(polls: Seq<int>, k: int, exited: bool, timeout_nanos: int)
    requires
        0 <= k < polls.len(),
        polls[0] >= 0,
        forall|i: int|
            0 <= i < polls.len() - 1 ==> #[trigger] polls[i] + poll_interval_nanos() <= polls[i
                + 1],
        k * poll_interval_nanos() >= timeout_nanos,
    ensures
        wait_step(exited, polls[k], timeout_nanos) !is Sleep,
{
    lemma_polls_are_apart(polls, k);
}

/// Law: the child is polled again if and only if it still runs before the deadline, and every
/// pause between two polls lasts 50 milliseconds.
pub proof fn law_pause_between_polls(exited: bool, elapsed_nanos: int, timeout_nanos: int)
    ensures
        wait_step(exited, elapsed_nanos, timeout_nanos) is Sleep <==> !exited && elapsed_nanos
            < timeout_nanos,
        wait_step(exited, elapsed_nanos, timeout_nanos) matches WaitStep::Sleep { millis }
            ==> millis == 50,
        poll_interval_nanos() == 50_000_000,
{
}

/// Law: a child that still runs at the deadline is given up soon after it. The poll that follows
/// a pause comes less than 50 milliseconds after the deadline, and is the last one if it does
/// not come before it.
pub proof fn law_given_up_soon_after_deadline(
    elapsed_nanos: int,
    timeout_nanos: int,
    millis: u64,
    next_nanos: int,
)
    requires
        wait_step(false, elapsed_nanos, timeout_nanos) == (WaitStep::Sleep { millis }),
        next_nanos == elapsed_nanos + millis * 1_000_000,
    ensures
        elapsed_nanos < next_nanos < timeout_nanos + 50_000_000,
        next_nanos >= timeout_nanos ==> wait_step(false, next_nanos, timeout_nanos)
            == WaitStep::GiveUp,
{
}

/// Law: the output of an exited child is waited for until the deadline, or for 50 milliseconds
/// where less is left, and no longer.
pub proof fn law_collected_until_deadline(elapsed_nanos: u128, timeout_nanos: u128)
    ensures
        wait_step(true, elapsed_nanos as int, timeout_nanos as int) matches WaitStep::Collect {
            within_nanos,
        } && within_nanos >= 50_000_000 && elapsed_nanos + within_nanos >= timeout_nanos && (
        within_nanos == 50_000_000 || elapsed_nanos + within_nanos == timeout_nanos),
{
}

} // verus!
