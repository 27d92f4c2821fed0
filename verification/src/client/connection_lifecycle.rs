//! When a connection attempt may proceed, and when its ending is worth reporting.

use vstd::prelude::*;

verus! {

/// An initialisation attempt is refused: one that is no restart, against a live connection.
pub open spec fn init_refused(restart: bool, initialized: bool) -> bool {
    !restart && initialized
}

/// A communication task that has ended reports the death of its connection: one whose generation
/// is the live one.
pub open spec fn death_reported(task_generation: u64, current_generation: u64) -> bool {
    task_generation == current_generation
}

/// The generation that follows one. The counter wraps.
pub open spec fn next_generation(generation: u64) -> u64 {
    if generation == u64::MAX {
        0
    } else {
        (generation + 1) as u64
    }
}

/// Whether an initialisation attempt must be refused outright.
///
/// Only a non-restart initialisation against a live connection: calling it twice is a caller
/// error. A restart is never refused, and specifically not when nothing is initialised: a
/// restart tears the old connection down before it connects, so one whose connect failed leaves
/// nothing initialised, and refusing the next would disable retrying for good.
pub fn refuse_init(restart: bool, initialized: bool) -> (refused: bool)
    ensures
        refused == init_refused(restart, initialized),
{
    !restart && initialized
}

/// Whether the existing connection must be torn down before connecting.
pub fn teardown_before_connect(restart: bool, initialized: bool) -> (teardown: bool)
    ensures
        teardown == (restart && initialized),
{
    restart && initialized
}

/// Whether a communication task that has just ended should report that the connection died.
///
/// Only if it is still the current connection's task. Closing a connection on purpose ends its
/// task too; a task reports only while the generation it was spawned under is still the live
/// one.
pub fn should_report_death(task_generation: u64, current_generation: u64) -> (report: bool)
    ensures
        report == death_reported(task_generation, current_generation),
{
    task_generation == current_generation
}

/// A retry is never refused, whatever the attempt before it has left behind.
pub proof fn law_a_restart_is_never_refused(initialized: bool)
    ensures
        !init_refused(true, initialized),
{
}

/// A connection that is closed on purpose is not reported as dead: its task belongs to a
/// generation that is not the live one any more. The task of a connection that was not closed is.
pub proof fn law_closing_is_not_dying(generation: u64)
    ensures
        !death_reported(generation, next_generation(generation)),
        death_reported(generation, generation),
{
}

/// Only a second initialisation without a restart is refused: the first one is not, nor one whose
/// connection is gone.
pub proof fn law_only_a_second_start_is_refused(restart: bool, initialized: bool)
    ensures
        init_refused(restart, initialized) <==> initialized && !restart,
{
}

/// A task reports a death exactly where its connection is the live one, and no task but that of
/// the live connection does.
pub proof fn law_only_the_live_connection_dies(generation: u64, live: u64)
    ensures
        death_reported(generation, live) <==> generation == live,
{
}

/// Generations are numbered one after the other, and the numbers wrap.
pub proof fn law_generations_follow_one_another(generation: u64)
    ensures
        next_generation(generation) as int == (generation + 1) % 18_446_744_073_709_551_616,
{
}

/// An attempt is refused, or tears the old connection down, or finds none: never two of these, and
/// the old connection is torn down only by a restart.
pub proof fn law_how_an_attempt_begins(
    restart: bool,
    initialized: bool,
    refused: bool,
    teardown: bool,
)
    requires
        call_ensures(refuse_init, (restart, initialized), refused),
        call_ensures(teardown_before_connect, (restart, initialized), teardown),
    ensures
        refused ==> !teardown,
        initialized <==> refused || teardown,
        teardown ==> restart,
        refused ==> !restart,
{
}

} // verus!
