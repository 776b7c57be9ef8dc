use crate::timer::Timer;
use std::time::{Duration, Instant};
use vstd::prelude::*;

verus! {

#[verifier::external_type_specification]
#[verifier::external_body]
pub struct ExInstant(Instant);

/// Relies on `Instant::now`: a reading of the monotonic clock, of which nothing is known.
pub assume_specification[ Instant::now ]() -> Instant;

/// Relies on `Instant::elapsed`: the time since the reading, of which nothing is known.
pub assume_specification[ Instant::elapsed ](i: &Instant) -> Duration;

/// Relies on `Duration::as_millis`: the whole milliseconds of a duration, of which nothing
/// is known here since a `Duration` is opaque.
pub assume_specification[ Duration::as_millis ](d: &Duration) -> u128;

/// A key press, as far as the session reads it.
#[derive(Clone, Copy, Debug, PartialEq, Eq, Structural)]
pub enum KeyPress {
    Char(char),
    Other,
}

/// The timer after key `key` at clock reading `now`: `i` starts it, `p` pauses it,
/// `c` resumes it, and every other key leaves it.
pub open spec fn timer_after_key(t: Timer, key: KeyPress, now: u128) -> Timer {
    match key {
        KeyPress::Char('i') => t.started(now),
        KeyPress::Char('c') => t.started(now),
        KeyPress::Char('p') => t.paused(now),
        _ => t,
    }
}

/// Whether key `key` asks to quit.
pub open spec fn is_quit(key: KeyPress) -> bool {
    key == KeyPress::Char('q')
}

/// The state of one session: its timer, whether the user asked to quit, and the instant
/// that the timer's clock readings count from.
pub struct App {
    pub exit: bool,
    pub timer: Timer,
    pub origin: Instant,
}

impl App {
    /// A session with a stopped timer that has never run.
    pub fn new() -> (r: App)
        ensures
            !r.exit,
            r.timer == Timer::fresh(),
    {
        App { exit: false, timer: Timer::new(), origin: Instant::now() }
    }

    /// The clock, in milliseconds since the session began.
    fn now(&self) -> u128 {
        self.origin.elapsed().as_millis()
    }

    /// Applies key `key` at clock reading `now`.
    pub fn handle_key_at(&mut self, key: KeyPress, now: u128)
        ensures
            final(self).exit == (old(self).exit || is_quit(key)),
            final(self).origin == old(self).origin,
            final(self).timer == timer_after_key(old(self).timer, key, now),
    {
        match key {
            KeyPress::Char('q') => self.exit(),
            KeyPress::Char('i') => self.timer.start(now),
            KeyPress::Char('p') => self.timer.pause(now),
            KeyPress::Char('c') => self.timer.resume(now),
            _ => {},
        }
    }

    /// Applies key `key` at the clock's present reading.
    pub fn handle_key_event(&mut self, key: KeyPress)
        ensures
            final(self).exit == (old(self).exit || is_quit(key)),
            final(self).origin == old(self).origin,
            exists|now: u128| final(self).timer == timer_after_key(old(self).timer, key, now),
    {
        let now = self.now();
        self.handle_key_at(key, now);
    }

    /// Starts the game, which starts its timer.
    pub fn start_game(&mut self)
        ensures
            final(self).exit == old(self).exit,
            final(self).origin == old(self).origin,
            exists|now: u128| final(self).timer == old(self).timer.started(now),
    {
        self.start_timer();
    }

    /// Starts the timer now; a running timer keeps its run.
    pub fn start_timer(&mut self)
        ensures
            final(self).exit == old(self).exit,
            final(self).origin == old(self).origin,
            exists|now: u128| final(self).timer == old(self).timer.started(now),
    {
        let now = self.now();
        self.timer.start(now);
    }

    /// Pauses the timer now; a stopped timer is kept.
    pub fn stop_timer(&mut self)
        ensures
            final(self).exit == old(self).exit,
            final(self).origin == old(self).origin,
            exists|now: u128| final(self).timer == old(self).timer.paused(now),
    {
        let now = self.now();
        self.timer.pause(now);
    }

    /// Resumes the timer now; a running timer keeps its run.
    pub fn continue_timer(&mut self)
        ensures
            final(self).exit == old(self).exit,
            final(self).origin == old(self).origin,
            exists|now: u128| final(self).timer == old(self).timer.started(now),
    {
        let now = self.now();
        self.timer.resume(now);
    }

    /// The timer's elapsed time now, in milliseconds.
    pub fn elapsed(&self) -> (r: u128)
        ensures
            exists|now: u128| r as nat == self.timer.elapsed_at(now),
    {
        let now = self.now();
        self.timer.elapsed(now)
    }

    /// Asks the session to end.
    pub fn exit(&mut self)
        ensures
            final(self).exit,
            final(self).timer == old(self).timer,
            final(self).origin == old(self).origin,
    {
        self.exit = true;
    }
}

impl Default for App {
    fn default() -> (r: App)
        ensures
            !r.exit,
            r.timer == Timer::fresh(),
    {
        App::new()
    }
}

} // verus!
