use std::time::Instant;
use vstd::prelude::*;

use crate::clock::{elapsed_since, now};
use crate::elapsed::{Elapsed, nanos_of, sum_capped};
use crate::text::{render, text_of};

verus! {

/// What a chronometer holds, with its spans as nanosecond counts.
pub struct ChronometerModel {
    /// A running interval is open.
    pub running: bool,
    /// The time banked from running intervals closed by a pause.
    pub accumulated: Option<nat>,
    /// The recorded laps, oldest first.
    pub laps: Seq<nat>,
    pub started: bool,
    pub paused: bool,
}

impl ChronometerModel {
    /// The state of a new or reset chronometer.
    pub open spec fn fresh() -> ChronometerModel {
        ChronometerModel {
            running: false,
            accumulated: None,
            laps: Seq::empty(),
            started: false,
            paused: false,
        }
    }

    /// A running interval is open exactly when the chronometer is started and
    /// not paused; before a start nothing is banked and no lap is recorded.
    pub open spec fn wf(self) -> bool {
        &&& self.running <==> (self.started && !self.paused)
        &&& !self.started ==> self.accumulated is None && self.laps.len() == 0
    }

    /// After a start: a new running interval opens, and what was banked stays.
    pub open spec fn started(self) -> ChronometerModel {
        ChronometerModel { running: true, started: true, paused: false, ..self }
    }

    /// After a pause, with the running interval (if one is open) having lasted
    /// `elapsed`: that interval is banked and closed.
    pub open spec fn paused_after(self, elapsed: nat) -> ChronometerModel {
        ChronometerModel {
            running: false,
            paused: true,
            accumulated: if self.running {
                match self.accumulated {
                    Some(a) => Some(sum_capped(a, elapsed)),
                    None => Some(elapsed),
                }
            } else {
                self.accumulated
            },
            ..self
        }
    }

    /// After a lap, with the running interval (if one is open) having lasted
    /// `elapsed`: that length is recorded, and nothing else changes.
    pub open spec fn lapped_after(self, elapsed: nat) -> ChronometerModel {
        if self.running {
            ChronometerModel { laps: self.laps.push(elapsed), ..self }
        } else {
            self
        }
    }

    /// The total elapsed time, with the running interval (if one is open)
    /// having lasted `elapsed`; none before a start.
    pub open spec fn duration_after(self, elapsed: nat) -> Option<nat> {
        if !self.started {
            None
        } else if self.paused {
            self.accumulated
        } else if self.running {
            match self.accumulated {
                Some(a) => Some(sum_capped(a, elapsed)),
                None => Some(elapsed),
            }
        } else {
            None
        }
    }
}

/// Measures elapsed monotonic time across start, pause and resume cycles.
#[derive(Debug)]
pub struct Chronometer {
    /// When the running interval began, while one is open.
    pub chrono: Option<Instant>,
    /// The time banked from running intervals closed by a pause.
    accumulated: Option<Elapsed>,
    /// Laps recorded since the last reset.
    pub laps: Vec<Elapsed>,
    /// Has the chronometer been started since it was made or reset.
    pub started: bool,
    /// Is the chronometer paused.
    pub paused: bool,
}

impl View for Chronometer {
    type V = ChronometerModel;

    closed spec fn view(&self) -> ChronometerModel {
        ChronometerModel {
            running: self.chrono is Some,
            accumulated: nanos_of(self.accumulated),
            laps: self.laps@.map_values(|e: Elapsed| e@),
            started: self.started,
            paused: self.paused,
        }
    }
}

impl Chronometer {
    /// A chronometer that has not been started.
    pub fn new() -> (r: Chronometer)
        ensures
            r@ == ChronometerModel::fresh(),
    {
        let r = Chronometer {
            chrono: None,
            accumulated: None,
            laps: Vec::new(),
            started: false,
            paused: false,
        };
        assert(r@.laps =~= Seq::empty());
        r
    }

    /// The total elapsed time when the running interval (if one is open) has
    /// lasted `elapsed`: what was banked plus that interval while running, what
    /// was banked while paused, and none before a start.
    pub fn duration_after(&self, elapsed: Elapsed) -> (r: Option<Elapsed>)
        ensures
            nanos_of(r) == self@.duration_after(elapsed@),
    {
        if self.started {
            if self.paused {
                self.accumulated
            } else {
                match self.chrono {
                    Some(_) => match self.accumulated {
                        Some(banked) => Some(banked.saturating_add(elapsed)),
                        None => Some(elapsed),
                    },
                    None => None,
                }
            }
        } else {
            None
        }
    }

    /// The total elapsed time, read from the monotonic clock; none before a start.
    pub fn duration(&self) -> (r: Option<Elapsed>)
        ensures
            exists|elapsed: nat|
                elapsed <= u128::MAX && nanos_of(r) == #[trigger] self@.duration_after(elapsed),
    {
        let elapsed = match &self.chrono {
            Some(since) => elapsed_since(since),
            None => Elapsed::zero(),
        };
        self.duration_after(elapsed)
    }

    /// Pauses when the running interval (if one is open) has lasted `elapsed`:
    /// that interval is added to what was banked, and the chronometer is paused.
    pub fn pause_after(&mut self, elapsed: Elapsed)
        ensures
            final(self)@ == old(self)@.paused_after(elapsed@),
    {
        if self.chrono.is_some() {
            self.accumulated = match self.accumulated {
                Some(banked) => Some(banked.saturating_add(elapsed)),
                None => Some(elapsed),
            };
        }
        self.chrono = None;
        self.paused = true;
    }

    /// Pauses, banking the running interval as read from the monotonic clock.
    pub fn pause(&mut self)
        ensures
            exists|elapsed: nat|
                elapsed <= u128::MAX && final(self)@ == #[trigger] old(self)@.paused_after(elapsed),
    {
        let elapsed = match &self.chrono {
            Some(since) => elapsed_since(since),
            None => Elapsed::zero(),
        };
        self.pause_after(elapsed);
    }

    /// Starts, or resumes after a pause: a new running interval opens now, and
    /// what was banked stays. Starting while running drops the open interval.
    pub fn start(&mut self)
        ensures
            final(self)@ == old(self)@.started(),
    {
        self.chrono = Some(now());
        self.started = true;
        self.paused = false;
    }

    /// Records a lap when the running interval (if one is open) has lasted
    /// `elapsed`; does nothing while not running.
    pub fn lap_after(&mut self, elapsed: Elapsed)
        ensures
            final(self)@ == old(self)@.lapped_after(elapsed@),
    {
        if self.chrono.is_some() {
            self.laps.push(elapsed);
            assert(self@.laps =~= old(self)@.laps.push(elapsed@));
        }
    }

    /// Records the running interval, as read from the monotonic clock, as a
    /// lap; does nothing while not running.
    pub fn lap(&mut self)
        ensures
            exists|elapsed: nat|
                elapsed <= u128::MAX && final(self)@ == #[trigger] old(self)@.lapped_after(elapsed),
    {
        let elapsed = match &self.chrono {
            Some(since) => elapsed_since(since),
            None => Elapsed::zero(),
        };
        self.lap_after(elapsed);
    }

    /// Returns to the state of a new chronometer: nothing banked, no laps.
    pub fn reset(&mut self)
        ensures
            final(self)@ == ChronometerModel::fresh(),
    {
        self.chrono = None;
        self.paused = false;
        self.started = false;
        self.accumulated = None;
        self.laps = Vec::new();
        assert(self@.laps =~= Seq::empty());
    }

    /// The total elapsed time as whole milliseconds in decimal, or
    /// `<not started>` before a start.
    pub fn to_string(&self) -> (r: String)
        ensures
            exists|elapsed: nat|
                elapsed <= u128::MAX && r@ == text_of(#[trigger] self@.duration_after(elapsed)),
    {
        render(self.duration())
    }
}

} // verus!
