//! The decisions of one timer session, tick by tick.
//!
//! The caller draws the screen, polls the keyboard and reads the clock; it
//! then hands the instant and the key (if any) to [`Session::step`] and
//! carries out the [`Action`] that comes back.

use vstd::prelude::*;
use crate::clock::{
    lemma_step_never_raises, ClockModel, Phase, TimerClock,
};

verus! {

/// How long a quote stays on screen, in milliseconds of wall-clock time.
pub const QUOTE_INTERVAL_MS: u64 = 5000;

/// A key press, as far as the session tells keys apart.
#[derive(Clone, Copy, Debug, PartialEq, Eq, Structural)]
pub enum Key {
    /// Toggles the pause.
    Pause,
    /// Ends the session.
    Quit,
    Other,
}

/// What the caller does after a step.
#[derive(Clone, Copy, Debug, PartialEq, Eq, Structural)]
pub enum Action {
    /// Go on with the next tick.
    Continue,
    /// Show a new quote, then go on.
    RotateQuote,
    /// End the session at once, without the end sound.
    Quit,
    /// The countdown just reached zero: stop the loop sound, play the end
    /// sound, show the expired screen and end the session on the next key.
    Expire,
}

/// The mathematical state of a [`Session`].
pub struct SessionModel {
    pub clock: ClockModel,
    /// The instant at which the quote on screen was chosen.
    pub last_quote_change: nat,
}

impl SessionModel {
    pub open spec fn started(total: nat, now: nat) -> SessionModel {
        SessionModel { clock: ClockModel::started(total, now), last_quote_change: now }
    }

    pub open spec fn wf(self) -> bool {
        &&& self.clock.wf()
        &&& self.last_quote_change <= self.clock.last
    }

    /// Whether a quote shown since `last_quote_change` is due for a change
    /// at instant `t`. The pause plays no part in it.
    pub open spec fn quote_due(self, t: nat) -> bool {
        t >= self.last_quote_change + QUOTE_INTERVAL_MS
    }

    /// One tick at instant `now` with key `key`.
    ///
    /// Once expired, any key ends the session. Before that, the quit key
    /// ends it at once; the pause key toggles the pause; then the clock
    /// ticks, and if the countdown reaches zero the session expires;
    /// otherwise the quote changes when it is due.
    pub open spec fn stepped(self, now: nat, key: Option<Key>) -> (SessionModel, Action) {
        if self.clock.phase == Phase::Expired {
            if key is Some {
                (self, Action::Quit)
            } else {
                (self, Action::Continue)
            }
        } else if key == Some(Key::Quit) {
            (self, Action::Quit)
        } else {
            let c1 = if key == Some(Key::Pause) {
                self.clock.toggled(now)
            } else {
                self.clock
            };
            let c2 = c1.ticked(now);
            if c1.expires_at(now) {
                (SessionModel { clock: c2, ..self }, Action::Expire)
            } else if self.quote_due(c2.last) {
                (SessionModel { clock: c2, last_quote_change: c2.last }, Action::RotateQuote)
            } else {
                (SessionModel { clock: c2, ..self }, Action::Continue)
            }
        }
    }
}

/// The state of one timer session: its clock and the quote timer.
pub struct Session {
    clock: TimerClock,
    last_quote_change: u64,
}

impl View for Session {
    type V = SessionModel;

    closed spec fn view(&self) -> SessionModel {
        SessionModel { clock: self.clock@, last_quote_change: self.last_quote_change as nat }
    }
}

impl Session {
    /// Starts a session counting down `total_time` milliseconds at instant
    /// `now`; the first quote counts as chosen at `now`.
    pub fn new(total_time: u64, now: u64) -> (r: Session)
        requires
            total_time > 0,
        ensures
            r@ == SessionModel::started(total_time as nat, now as nat),
            r@.wf(),
    {
        Session { clock: TimerClock::start(total_time, now), last_quote_change: now }
    }

    /// The remaining time to show.
    pub fn remaining(&self) -> (r: u64)
        ensures
            r == self@.clock.remaining,
    {
        self.clock.remaining()
    }

    pub fn phase(&self) -> (r: Phase)
        ensures
            r == self@.clock.phase,
    {
        self.clock.phase()
    }

    pub fn is_paused(&self) -> (r: bool)
        ensures
            r == (self@.clock.phase == Phase::Paused),
    {
        self.clock.is_paused()
    }

    /// Takes one tick at instant `now`, with the key pressed since the
    /// previous tick, if any.
    pub fn step(&mut self, now: u64, key: Option<Key>) -> (a: Action)
        requires
            old(self)@.wf(),
        ensures
            (final(self)@, a) == old(self)@.stepped(now as nat, key),
            final(self)@.wf(),
    {
        if self.clock.phase() == Phase::Expired {
            return match key {
                Some(_) => Action::Quit,
                None => Action::Continue,
            };
        }
        match key {
            Some(Key::Quit) => {
                return Action::Quit;
            },
            Some(Key::Pause) => {
                self.clock.toggle_pause(now);
            },
            _ => {},
        }
        if self.clock.tick(now) {
            return Action::Expire;
        }
        let t = self.clock.latest();
        if t - self.last_quote_change >= QUOTE_INTERVAL_MS {
            self.last_quote_change = t;
            Action::RotateQuote
        } else {
            Action::Continue
        }
    }
}

/// How many of the steps in `steps` (instant and key, in order) answer
/// [`Action::Expire`], starting from `s`.
pub open spec fn expiries(s: SessionModel, steps: Seq<(nat, Option<Key>)>) -> nat
    decreases steps.len(),
{
    if steps.len() == 0 {
        0
    } else {
        let (next, a) = s.stepped(steps[0].0, steps[0].1);
        (if a == Action::Expire {
            1nat
        } else {
            0nat
        }) + expiries(next, steps.drop_first())
    }
}

/// Every step keeps a session well formed; a step that answers
/// [`Action::Expire`] leaves the clock expired, and an expired session
/// stays expired.
pub proof fn lemma_step_keeps_wf(s: SessionModel, now: nat, key: Option<Key>)
    requires
        s.wf(),
    ensures
        s.stepped(now, key).0.wf(),
        s.stepped(now, key).1 == Action::Expire ==> s.stepped(now, key).0.clock.phase
            == Phase::Expired,
        s.clock.phase == Phase::Expired ==> s.stepped(now, key).0.clock.phase == Phase::Expired
            && s.stepped(now, key).1 != Action::Expire,
{
}

/// The end of the countdown is announced at most once per session, however
/// many steps follow, and never again once the session has expired.
pub proof fn lemma_expiry_fires_once(s: SessionModel, steps: Seq<(nat, Option<Key>)>)
    requires
        s.wf(),
    ensures
        expiries(s, steps) <= 1,
        s.clock.phase == Phase::Expired ==> expiries(s, steps) == 0,
    decreases steps.len(),
{
    if steps.len() > 0 {
        let next = s.stepped(steps[0].0, steps[0].1).0;
        lemma_step_keeps_wf(s, steps[0].0, steps[0].1);
        lemma_expiry_fires_once(next, steps.drop_first());
    }
}

/// A running session whose running time has reached the countdown length
/// expires on the next step that is not the quit key.
pub proof fn lemma_expiry_fires_at_zero(s: SessionModel, now: nat)
    requires
        s.wf(),
        s.clock.phase == Phase::Running,
        s.clock.running_time(s.clock.effective(now)) >= s.clock.total,
    ensures
        s.stepped(now, None).1 == Action::Expire,
        s.stepped(now, Some(Key::Other)).1 == Action::Expire,
{
}

/// Before expiry, and on a step that neither quits nor expires, the quote
/// changes exactly when five seconds of wall-clock time have passed since
/// the last change, paused or not.
pub proof fn lemma_quote_rotation_ignores_pause(s: SessionModel, now: nat, key: Option<Key>)
    requires
        s.wf(),
        s.clock.phase != Phase::Expired,
        key != Some(Key::Quit),
        s.stepped(now, key).1 != Action::Expire,
    ensures
        (s.stepped(now, key).1 == Action::RotateQuote) == (s.clock.effective(now)
            >= s.last_quote_change + QUOTE_INTERVAL_MS),
{
}

/// While paused, the quote still changes once five seconds have passed.
pub proof fn lemma_quote_rotates_while_paused(s: SessionModel, now: nat)
    requires
        s.wf(),
        s.clock.phase == Phase::Paused,
        now >= s.last_quote_change + QUOTE_INTERVAL_MS,
    ensures
        s.stepped(now, None).1 == Action::RotateQuote,
        s.stepped(now, None).0.clock.phase == Phase::Paused,
        s.stepped(now, None).0.clock.remaining == s.clock.remaining,
{
}

/// The session after each of `steps` (instant and key) in order, starting
/// from `s`.
pub open spec fn run(s: SessionModel, steps: Seq<(nat, Option<Key>)>) -> SessionModel
    decreases steps.len(),
{
    if steps.len() == 0 {
        s
    } else {
        run(s.stepped(steps[0].0, steps[0].1).0, steps.drop_first())
    }
}

/// Over any run of steps, with any pause keys among them, the remaining
/// time never grows.
pub proof fn lemma_remaining_never_grows(s: SessionModel, steps: Seq<(nat, Option<Key>)>)
    requires
        s.wf(),
    ensures
        run(s, steps).wf(),
        run(s, steps).clock.remaining <= s.clock.remaining,
    decreases steps.len(),
{
    if steps.len() > 0 {
        let (now, key) = (steps[0].0, steps[0].1);
        lemma_step_keeps_wf(s, now, key);
        if s.clock.phase != Phase::Expired && key != Some(Key::Quit) {
            lemma_step_never_raises(s.clock, now);
            lemma_step_never_raises(s.clock.toggled(now), now);
        }
        lemma_remaining_never_grows(s.stepped(now, key).0, steps.drop_first());
    }
}

/// However much time passes, a paused session whose steps bring no pause
/// key stays paused with its remaining time frozen.
pub proof fn lemma_paused_run_is_frozen(s: SessionModel, steps: Seq<(nat, Option<Key>)>)
    requires
        s.wf(),
        s.clock.phase == Phase::Paused,
        forall|i: int| 0 <= i < steps.len() ==> (#[trigger] steps[i]).1 != Some(Key::Pause),
    ensures
        run(s, steps).clock.phase == Phase::Paused,
        run(s, steps).clock.remaining == s.clock.remaining,
    decreases steps.len(),
{
    if steps.len() > 0 {
        let next = s.stepped(steps[0].0, steps[0].1).0;
        lemma_step_keeps_wf(s, steps[0].0, steps[0].1);
        assert forall|i: int| 0 <= i < steps.drop_first().len() implies (
        #[trigger] steps.drop_first()[i]).1 != Some(Key::Pause) by {
            assert(steps.drop_first()[i] == steps[i + 1]);
        }
        lemma_paused_run_is_frozen(next, steps.drop_first());
    }
}

} // verus!
