//! The countdown clock: running, paused and expired, with paused time kept
//! out of the count.
//!
//! Instants are millisecond counts on a monotonic clock, supplied by the
//! caller. An instant earlier than one already seen is taken as the latest
//! instant seen, so a clock that steps back never adds or removes time.

use vstd::prelude::*;

verus! {

/// Where a countdown stands.
#[derive(Clone, Copy, Debug, PartialEq, Eq, Structural)]
pub enum Phase {
    Running,
    Paused,
    /// The countdown reached zero; nothing but quitting follows.
    Expired,
}

/// The mathematical state of a [`TimerClock`].
pub struct ClockModel {
    /// The countdown length in milliseconds.
    pub total: nat,
    /// The instant the countdown started.
    pub start: nat,
    /// Milliseconds spent in pauses that have ended.
    pub paused_total: nat,
    /// The instant the current pause began (meaningful while paused).
    pub pause_started: nat,
    /// The latest instant the clock has been shown.
    pub last: nat,
    /// The remaining time as last computed.
    pub remaining: nat,
    pub phase: Phase,
}

impl ClockModel {
    /// A countdown of `total` milliseconds started at instant `now`.
    pub open spec fn started(total: nat, now: nat) -> ClockModel {
        ClockModel {
            total,
            start: now,
            paused_total: 0,
            pause_started: now,
            last: now,
            remaining: total,
            phase: Phase::Running,
        }
    }

    pub open spec fn wf(self) -> bool {
        &&& self.start + self.paused_total <= self.last
        &&& self.phase == Phase::Paused ==> self.start + self.paused_total <= self.pause_started
            <= self.last
        &&& self.remaining <= self.total
        &&& (self.phase == Phase::Expired) == (self.remaining == 0)
        &&& self.phase == Phase::Running ==> self.remaining >= self.remaining_at(self.last)
        &&& self.phase == Phase::Paused ==> self.remaining >= self.remaining_at(self.pause_started)
    }

    /// The instant at which a call made at `now` takes effect.
    pub open spec fn effective(self, now: nat) -> nat {
        if now < self.last {
            self.last
        } else {
            now
        }
    }

    /// Milliseconds counted against the countdown by instant `t`: the time
    /// since the start less the time spent in ended pauses.
    pub open spec fn running_time(self, t: nat) -> int {
        t - self.start - self.paused_total
    }

    /// `max(0, total - running_time(t))`.
    pub open spec fn remaining_at(self, t: nat) -> nat {
        if self.running_time(t) >= self.total {
            0
        } else {
            (self.total - self.running_time(t)) as nat
        }
    }

    /// The state after the pause key at `now`: a running clock pauses, a
    /// paused one resumes and adds the length of the pause to
    /// `paused_total`; an expired one stays as it is.
    pub open spec fn toggled(self, now: nat) -> ClockModel {
        let t = self.effective(now);
        match self.phase {
            Phase::Running => ClockModel { phase: Phase::Paused, pause_started: t, last: t, ..self },
            Phase::Paused => ClockModel {
                phase: Phase::Running,
                paused_total: (self.paused_total + (t - self.pause_started)) as nat,
                last: t,
                ..self
            },
            Phase::Expired => ClockModel { last: t, ..self },
        }
    }

    /// Whether a tick at `now` is the one at which the countdown reaches zero.
    pub open spec fn expires_at(self, now: nat) -> bool {
        self.phase == Phase::Running && self.remaining_at(self.effective(now)) == 0
    }

    /// The state after a tick at `now`: a running clock recomputes its
    /// remaining time and expires on reaching zero; a paused or expired one
    /// keeps its remaining time.
    pub open spec fn ticked(self, now: nat) -> ClockModel {
        let t = self.effective(now);
        if self.phase == Phase::Running {
            let r = self.remaining_at(t);
            ClockModel {
                remaining: r,
                phase: if r == 0 {
                    Phase::Expired
                } else {
                    Phase::Running
                },
                last: t,
                ..self
            }
        } else {
            ClockModel { last: t, ..self }
        }
    }
}

/// A countdown clock over caller-supplied millisecond instants.
pub struct TimerClock {
    total_time: u64,
    start: u64,
    paused_total: u64,
    pause_started: u64,
    last: u64,
    remaining: u64,
    phase: Phase,
}

impl View for TimerClock {
    type V = ClockModel;

    closed spec fn view(&self) -> ClockModel {
        ClockModel {
            total: self.total_time as nat,
            start: self.start as nat,
            paused_total: self.paused_total as nat,
            pause_started: self.pause_started as nat,
            last: self.last as nat,
            remaining: self.remaining as nat,
            phase: self.phase,
        }
    }
}

impl TimerClock {
    /// Starts a countdown of `total_time` milliseconds at instant `now`.
    pub fn start(total_time: u64, now: u64) -> (r: TimerClock)
        requires
            total_time > 0,
        ensures
            r@ == ClockModel::started(total_time as nat, now as nat),
            r@.wf(),
    {
        TimerClock {
            total_time,
            start: now,
            paused_total: 0,
            pause_started: now,
            last: now,
            remaining: total_time,
            phase: Phase::Running,
        }
    }

    /// The remaining time as last computed: frozen while paused, zero once
    /// expired.
    pub fn remaining(&self) -> (r: u64)
        ensures
            r == self@.remaining,
    {
        self.remaining
    }

    pub fn phase(&self) -> (r: Phase)
        ensures
            r == self@.phase,
    {
        self.phase
    }

    pub fn is_paused(&self) -> (r: bool)
        ensures
            r == (self@.phase == Phase::Paused),
    {
        match self.phase {
            Phase::Paused => true,
            _ => false,
        }
    }

    pub fn total_time(&self) -> (r: u64)
        ensures
            r == self@.total,
    {
        self.total_time
    }

    /// The latest instant the clock has been shown.
    pub fn latest(&self) -> (r: u64)
        ensures
            r == self@.last,
    {
        self.last
    }

    fn effective(&self, now: u64) -> (t: u64)
        ensures
            t == self@.effective(now as nat),
    {
        if now < self.last {
            self.last
        } else {
            now
        }
    }

    /// Pauses a running clock or resumes a paused one, at instant `now`.
    pub fn toggle_pause(&mut self, now: u64)
        requires
            old(self)@.wf(),
        ensures
            final(self)@ == old(self)@.toggled(now as nat),
            final(self)@.wf(),
    {
        let t = self.effective(now);
        match self.phase {
            Phase::Running => {
                self.phase = Phase::Paused;
                self.pause_started = t;
            },
            Phase::Paused => {
                self.paused_total = self.paused_total + (t - self.pause_started);
                self.phase = Phase::Running;
            },
            Phase::Expired => {},
        }
        self.last = t;
    }

    /// Recomputes the remaining time at instant `now` if running. Returns
    /// whether this tick is the one at which the countdown reached zero.
    pub fn tick(&mut self, now: u64) -> (expired: bool)
        requires
            old(self)@.wf(),
        ensures
            final(self)@ == old(self)@.ticked(now as nat),
            expired == old(self)@.expires_at(now as nat),
            final(self)@.wf(),
    {
        let t = self.effective(now);
        self.last = t;
        match self.phase {
            Phase::Running => {
                let active = t - self.start - self.paused_total;
                let r = self.total_time.saturating_sub(active);
                self.remaining = r;
                if r == 0 {
                    self.phase = Phase::Expired;
                    true
                } else {
                    false
                }
            },
            _ => false,
        }
    }
}

/// A countdown of `total > 0` milliseconds shows its full length when it
/// starts, and still does on a tick at the same instant.
pub proof fn lemma_start_shows_total(total: nat, now: nat)
    requires
        total > 0,
    ensures
        ClockModel::started(total, now).wf(),
        ClockModel::started(total, now).remaining == total,
        ClockModel::started(total, now).ticked(now).remaining == total,
        !ClockModel::started(total, now).expires_at(now),
{
}

/// While paused, ticks leave the remaining time and the phase as they are;
/// the pause key itself never changes the remaining time.
pub proof fn lemma_pause_freezes_remaining(c: ClockModel, now: nat)
    requires
        c.wf(),
        c.phase == Phase::Paused,
    ensures
        c.toggled(now).remaining == c.remaining,
        c.ticked(now).remaining == c.remaining,
        c.ticked(now).phase == Phase::Paused,
        !c.expires_at(now),
{
}

/// A pause from `t1` to `t2` is not counted: a tick at `t3` after it shows
/// what a tick at `t3 - (t2 - t1)` would have shown without the pause.
pub proof fn lemma_pause_not_counted(c: ClockModel, t1: nat, t2: nat, t3: nat)
    requires
        c.wf(),
        c.phase == Phase::Running,
        c.last <= t1 <= t2 <= t3,
    ensures
        c.toggled(t1).toggled(t2).ticked(t3).remaining == c.ticked((t3 - (t2 - t1)) as nat).remaining,
        c.toggled(t1).toggled(t2).ticked(t3).phase == c.ticked((t3 - (t2 - t1)) as nat).phase,
{
}

/// While running, the remaining time never grows, and until it reaches zero
/// it falls by exactly the time between two ticks.
pub proof fn lemma_running_rate(c: ClockModel, t1: nat, t2: nat)
    requires
        c.wf(),
        c.phase == Phase::Running,
        c.last <= t1 <= t2,
    ensures
        c.ticked(t1).ticked(t2).remaining <= c.ticked(t1).remaining,
        c.ticked(t1).ticked(t2).remaining > 0 ==> c.ticked(t1).remaining
            - c.ticked(t1).ticked(t2).remaining == t2 - t1,
{
}

/// Once the running time reaches the countdown length, a tick yields zero
/// remaining time (never less, never a wrapped value) and expires the clock.
pub proof fn lemma_remaining_floor(c: ClockModel, now: nat)
    requires
        c.wf(),
        c.phase == Phase::Running,
        c.running_time(c.effective(now)) >= c.total,
    ensures
        c.ticked(now).remaining == 0,
        c.ticked(now).phase == Phase::Expired,
        c.expires_at(now),
{
}

/// Every tick and every pause key keeps the clock well formed, so the
/// remaining time stays between zero and the countdown length.
pub proof fn lemma_steps_keep_bounds(c: ClockModel, now: nat)
    requires
        c.wf(),
    ensures
        c.ticked(now).wf(),
        c.toggled(now).wf(),
        c.ticked(now).remaining <= c.total,
{
}

/// An expired clock stays expired and never expires again.
pub proof fn lemma_expired_is_final(c: ClockModel, now: nat)
    requires
        c.wf(),
        c.phase == Phase::Expired,
    ensures
        !c.expires_at(now),
        c.ticked(now).phase == Phase::Expired,
        c.toggled(now).phase == Phase::Expired,
        c.ticked(now).remaining == 0,
{
}

/// No tick and no pause key ever raises the remaining time: a tick can only
/// lower it, and the pause key leaves it as it is.
pub proof fn lemma_step_never_raises(c: ClockModel, now: nat)
    requires
        c.wf(),
    ensures
        c.ticked(now).remaining <= c.remaining,
        c.toggled(now).remaining == c.remaining,
{
}

/// The clock after the pause key at each of `times`, in order.
pub open spec fn toggled_all(c: ClockModel, times: Seq<nat>) -> ClockModel
    decreases times.len(),
{
    if times.len() == 0 {
        c
    } else {
        toggled_all(c.toggled(times[0]), times.drop_first())
    }
}

/// The total length of the pauses `[times[0], times[1]]`,
/// `[times[2], times[3]]`, and so on.
pub open spec fn pause_sum(times: Seq<nat>) -> int
    decreases times.len(),
{
    if times.len() < 2 {
        0
    } else {
        (times[1] - times[0]) + pause_sum(times.subrange(2, times.len() as int))
    }
}

pub open spec fn non_decreasing(times: Seq<nat>) -> bool {
    forall|i: int, j: int| 0 <= i <= j < times.len() ==> times[i] <= times[j]
}

/// Any number of completed pauses, each counted exactly once: from a
/// running clock, pressing the pause key at each of `times` (pause, resume,
/// pause, resume, ...) and then ticking at `t` gives
/// `max(0, total - running time)`, where the running time leaves out the
/// length of every pause and nothing else.
pub proof fn lemma_pauses_counted_once(c: ClockModel, times: Seq<nat>, t: nat)
    requires
        c.wf(),
        c.phase == Phase::Running,
        times.len() % 2 == 0,
        non_decreasing(times),
        times.len() > 0 ==> c.last <= times[0] && times[times.len() - 1] <= t,
        c.last <= t,
    ensures
        toggled_all(c, times).phase == Phase::Running,
        toggled_all(c, times).paused_total == c.paused_total + pause_sum(times),
        toggled_all(c, times).ticked(t).remaining == (if t - c.start - c.paused_total
            - pause_sum(times) >= c.total {
            0
        } else {
            c.total - (t - c.start - c.paused_total - pause_sum(times))
        }),
    decreases times.len(),
{
    if times.len() > 0 {
        let c1 = c.toggled(times[0]);
        let c2 = c1.toggled(times[1]);
        lemma_steps_keep_bounds(c, times[0]);
        lemma_steps_keep_bounds(c1, times[1]);
        let rest = times.subrange(2, times.len() as int);
        assert(times.drop_first().drop_first() =~= rest);
        assert(toggled_all(c1, times.drop_first()) == toggled_all(c2, rest));
        lemma_pauses_counted_once(c2, rest, t);
    }
}

} // verus!
