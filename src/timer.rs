use vstd::prelude::*;

verus! {

/// Length of the interval from `from` to `to`, or zero when the clock went back.
pub open spec fn span(from: u128, to: u128) -> nat {
    if from <= to {
        (to - from) as nat
    } else {
        0
    }
}

/// A duration in milliseconds held to what a `u128` can count: larger totals stay at the maximum.
pub open spec fn capped(x: nat) -> nat {
    if x <= u128::MAX {
        x
    } else {
        u128::MAX as nat
    }
}

/// The time between two clock readings, in milliseconds; zero when the clock went back.
pub fn span_between(from: u128, to: u128) -> (r: u128)
    ensures
        r as nat == span(from, to),
{
    if from <= to {
        to - from
    } else {
        0
    }
}

/// A stopwatch over clock readings in milliseconds.
///
/// It is running exactly when `started_at` holds the reading at which the current run
/// began; `accumulated` is the time of all runs that have ended.
#[derive(Clone, Copy, Debug, PartialEq, Eq, Structural)]
pub struct Timer {
    pub started_at: Option<u128>,
    pub accumulated: u128,
}

/// The operations that drive a timer.
#[derive(Clone, Copy, Debug, PartialEq, Eq, Structural)]
pub enum TimerOp {
    Start,
    Pause,
    Resume,
}

impl Timer {
    /// A timer that has never run.
    pub open spec fn fresh() -> Timer {
        Timer { started_at: None, accumulated: 0 }
    }

    pub open spec fn running(self) -> bool {
        self.started_at is Some
    }

    /// The timer after `start` or `resume` at reading `now`.
    pub open spec fn started(self, now: u128) -> Timer {
        if self.running() {
            self
        } else {
            Timer { started_at: Some(now), accumulated: self.accumulated }
        }
    }

    /// The timer after `pause` at reading `now`.
    pub open spec fn paused(self, now: u128) -> Timer {
        match self.started_at {
            Some(t0) => Timer {
                started_at: None,
                accumulated: capped((self.accumulated + span(t0, now)) as nat) as u128,
            },
            None => self,
        }
    }

    /// The elapsed time at reading `now`: the ended runs plus the current one.
    pub open spec fn elapsed_at(self, now: u128) -> nat {
        match self.started_at {
            Some(t0) => capped((self.accumulated + span(t0, now)) as nat),
            None => self.accumulated as nat,
        }
    }

    /// The timer after one operation at reading `now`.
    pub open spec fn step(self, op: TimerOp, now: u128) -> Timer {
        match op {
            TimerOp::Pause => self.paused(now),
            _ => self.started(now),
        }
    }

    /// The timer after each operation of `ops` in turn, each at its own reading.
    pub open spec fn replay(self, ops: Seq<(TimerOp, u128)>) -> Timer
        decreases ops.len(),
    {
        if ops.len() == 0 {
            self
        } else {
            self.replay(ops.drop_last()).step(ops.last().0, ops.last().1)
        }
    }

    pub fn new() -> (r: Timer)
        ensures
            r == Timer::fresh(),
    {
        Timer { started_at: None, accumulated: 0 }
    }

    pub fn is_running(&self) -> (r: bool)
        ensures
            r == self.running(),
    {
        self.started_at.is_some()
    }

    /// Starts a run at reading `now`; a running timer keeps the run it has.
    pub fn start(&mut self, now: u128)
        ensures
            *final(self) == old(self).started(now),
    {
        if self.started_at.is_none() {
            self.started_at = Some(now);
        }
    }

    /// Resumes a stopped timer at reading `now`; the same transition as `start`.
    pub fn resume(&mut self, now: u128)
        ensures
            *final(self) == old(self).started(now),
    {
        self.start(now);
    }

    /// Ends the current run at reading `now` and adds its length; a stopped timer is kept.
    pub fn pause(&mut self, now: u128)
        ensures
            *final(self) == old(self).paused(now),
    {
        match self.started_at {
            Some(t0) => {
                let run = span_between(t0, now);
                self.accumulated = self.accumulated.saturating_add(run);
                self.started_at = None;
            },
            None => {},
        }
    }

    /// The elapsed time at reading `now`, in milliseconds.
    pub fn elapsed(&self, now: u128) -> (r: u128)
        ensures
            r as nat == self.elapsed_at(now),
    {
        match self.started_at {
            Some(t0) => self.accumulated.saturating_add(span_between(t0, now)),
            None => self.accumulated,
        }
    }
}

impl Default for Timer {
    fn default() -> (r: Timer)
        ensures
            r == Timer::fresh(),
    {
        Timer::new()
    }
}

/// The total length of the runs in `ops`: an operation other than `Pause` leaves the timer
/// running up to the next operation's reading, or up to `now` for the last one.
pub open spec fn running_total(ops: Seq<(TimerOp, u128)>, now: u128) -> nat
    decreases ops.len(),
{
    if ops.len() == 0 {
        0
    } else {
        let (op, at) = ops.last();
        running_total(ops.drop_last(), at) + if op == TimerOp::Pause {
            0
        } else {
            span(at, now)
        }
    }
}

/// Readings in the order the operations came, none after `now`.
pub open spec fn readings_ordered(ops: Seq<(TimerOp, u128)>, now: u128) -> bool {
    &&& forall|i: int, j: int| 0 <= i <= j < ops.len() ==> ops[i].1 <= ops[j].1
    &&& forall|i: int| 0 <= i < ops.len() ==> ops[i].1 <= now
}

proof fn lemma_capped_shift(x: nat, y: nat, s: nat)
    requires
        capped(x) == capped(y),
    ensures
        capped(x + s) == capped(y + s),
{
}

/// For any run of `start`, `pause` and `resume` on a fresh timer at readings that do not go
/// back, the elapsed time is the total length of the runs (held to what a `u128` counts).
pub proof fn lemma_elapsed_is_running_total(ops: Seq<(TimerOp, u128)>, now: u128)
    requires
        readings_ordered(ops, now),
    ensures
        Timer::fresh().replay(ops).elapsed_at(now) == capped(running_total(ops, now)),
        match Timer::fresh().replay(ops).started_at {
            Some(t0) => t0 <= now,
            None => true,
        },
    decreases ops.len(),
{
    if ops.len() > 0 {
        let p = ops.drop_last();
        let (op, at) = ops.last();
        assert(readings_ordered(p, at)) by {
            assert forall|i: int| 0 <= i < p.len() implies p[i].1 <= at by {
                assert(ops[i].1 <= ops[ops.len() - 1].1);
            }
        }
        lemma_elapsed_is_running_total(p, at);
        let t = Timer::fresh().replay(p);
        let rp = running_total(p, at);
        match t.started_at {
            Some(t0) => {
                let x = (t.accumulated + span(t0, at)) as nat;
                assert(span(t0, now) == span(t0, at) + span(at, now));
                if op != TimerOp::Pause {
                    lemma_capped_shift(x, rp, span(at, now));
                }
            },
            None => {
                if op != TimerOp::Pause {
                    lemma_capped_shift(t.accumulated as nat, rp, span(at, now));
                }
            },
        }
    }
}

/// A redundant `start` or `resume` keeps the run that is going on, and with it the elapsed
/// time at every later reading.
pub proof fn lemma_start_while_running_is_noop(t: Timer, now: u128, later: u128)
    requires
        t.running(),
    ensures
        t.started(now) == t,
        t.started(now).elapsed_at(later) == t.elapsed_at(later),
{
}

/// A redundant `pause` changes nothing, the elapsed time included.
pub proof fn lemma_pause_while_stopped_is_noop(t: Timer, now: u128, later: u128)
    requires
        !t.running(),
    ensures
        t.paused(now) == t,
        t.paused(now).elapsed_at(later) == t.elapsed_at(later),
{
}

/// The elapsed time does not decrease while the clock does not go back, and no operation
/// changes it at the reading where it happens.
pub proof fn lemma_elapsed_monotone(t: Timer, op: TimerOp, a: u128, b: u128)
    requires
        a <= b,
        match t.started_at {
            Some(t0) => t0 <= a,
            None => true,
        },
    ensures
        t.elapsed_at(a) <= t.elapsed_at(b),
        t.step(op, a).elapsed_at(a) == t.elapsed_at(a),
{
}

} // verus!
