use vstd::prelude::*;

use crate::chronometer::ChronometerModel;

verus! {

/// Every operation keeps a chronometer well formed: a running interval is open
/// exactly while started and not paused, and nothing is banked or recorded
/// before a start.
pub proof fn lemma_operations_keep_wf(s: ChronometerModel, elapsed: nat)
    requires
        s.wf(),
    ensures
        ChronometerModel::fresh().wf(),
        s.started().wf(),
        s.paused_after(elapsed).wf(),
        s.lapped_after(elapsed).wf(),
{
}

/// After a start the chronometer is started and not paused, its total elapsed
/// time is present, and that total does not decrease as time passes.
pub proof fn lemma_duration_grows_while_running(s: ChronometerModel, e1: nat, e2: nat)
    requires
        e1 <= e2,
    ensures
        s.started().started,
        !s.started().paused,
        s.started().duration_after(e1) is Some,
        s.started().duration_after(e1).unwrap() <= s.started().duration_after(e2).unwrap(),
{
}

/// Pausing a running chronometer keeps the total elapsed time it had at the
/// instant of pausing, however long it then stays paused.
pub proof fn lemma_pause_keeps_duration(s: ChronometerModel, elapsed: nat, later: nat)
    requires
        s.wf(),
        s.started,
        !s.paused,
    ensures
        s.paused_after(elapsed).duration_after(later) == s.duration_after(elapsed),
{
}

/// Start, run for `t1`, pause, wait `t2`, start again and run for `t3`: the
/// total is `t1` while paused and `t1 + t3` at the end; the paused time does
/// not count.
pub proof fn lemma_resume_accumulates(t1: nat, t2: nat, t3: nat)
    requires
        t1 + t3 <= u128::MAX,
    ensures
        ChronometerModel::fresh().started().paused_after(t1).duration_after(t2) == Some(t1),
        ChronometerModel::fresh().started().paused_after(t1).started().duration_after(t3) == Some(
            t1 + t3,
        ),
{
}

/// A lap taken before a start or while paused records nothing.
pub proof fn lemma_lap_ignored_unless_running(s: ChronometerModel, elapsed: nat)
    requires
        s.wf(),
        !s.started || s.paused,
    ensures
        s.lapped_after(elapsed) == s,
{
}

/// Laps taken while running record how long the running interval has lasted,
/// measured from the last start or resume, not across pauses.
pub proof fn lemma_laps_measure_running_interval(
    s: ChronometerModel,
    t: nat,
    d: nat,
    t1: nat,
    t3: nat,
)
    ensures
        s.started().lapped_after(t).lapped_after(t + d).laps == s.laps + seq![t, t + d],
        s.started().paused_after(t1).started().lapped_after(t3).laps == s.laps.push(t3),
{
    assert(s.started().lapped_after(t).lapped_after(t + d).laps =~= s.laps + seq![t, t + d]);
}

} // verus!
