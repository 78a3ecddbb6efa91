use vstd::prelude::*;

verus! {

/// How long the monitor waits, in milliseconds, after seeing both players
/// finish their mulligan, before it stops.
pub const MULLIGAN_FINISHED_WAIT_MS: u64 = 2000;

/// How long the monitor waits, in milliseconds, before it checks again while
/// a player has not finished.
pub const MULLIGAN_RECHECK_WAIT_MS: u64 = 3000;

/// What the mulligan monitor of a battle room does after one check.
#[derive(Debug, Clone, Copy, PartialEq, Eq, Structural)]
pub enum MulliganMonitorStep {
    /// Both players have finished: wait `wait_ms`, then stop monitoring.
    Finish { wait_ms: u64 },
    /// A player is still choosing: wait `wait_ms`, then check again.
    KeepWatching { wait_ms: u64 },
}

pub open spec fn spec_next_mulligan_monitor_step(
    first_account_has_finished: bool,
    second_account_has_finished: bool,
) -> MulliganMonitorStep {
    if first_account_has_finished && second_account_has_finished {
        MulliganMonitorStep::Finish { wait_ms: MULLIGAN_FINISHED_WAIT_MS }
    } else {
        MulliganMonitorStep::KeepWatching { wait_ms: MULLIGAN_RECHECK_WAIT_MS }
    }
}

/// The monitor's step after it has seen whether each of the room's two
/// players has finished their mulligan.
pub fn next_mulligan_monitor_step(
    first_account_has_finished: bool,
    second_account_has_finished: bool,
) -> (step: MulliganMonitorStep)
    ensures
        step == spec_next_mulligan_monitor_step(
            first_account_has_finished,
            second_account_has_finished,
        ),
{
    if first_account_has_finished && second_account_has_finished {
        MulliganMonitorStep::Finish { wait_ms: MULLIGAN_FINISHED_WAIT_MS }
    } else {
        MulliganMonitorStep::KeepWatching { wait_ms: MULLIGAN_RECHECK_WAIT_MS }
    }
}

/// The monitor stops exactly when both players have finished, and keeps
/// watching while either one has not; the two players are treated alike.
pub proof fn lemma_monitor_stops_iff_both_finished(first: bool, second: bool)
    ensures
        (spec_next_mulligan_monitor_step(first, second) is Finish) <==> (first && second),
        spec_next_mulligan_monitor_step(first, second) == spec_next_mulligan_monitor_step(
            second,
            first,
        ),
{
}

/// After both players finish the monitor waits two seconds and stops; while
/// either has not, it waits three seconds and checks again.
pub proof fn lemma_monitor_waits(first: bool, second: bool)
    ensures
        first && second ==> spec_next_mulligan_monitor_step(first, second)
            == (MulliganMonitorStep::Finish { wait_ms: 2000 }),
        !(first && second) ==> spec_next_mulligan_monitor_step(first, second)
            == (MulliganMonitorStep::KeepWatching { wait_ms: 3000 }),
{
}

} // verus!
