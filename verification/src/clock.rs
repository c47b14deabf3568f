//! A seconds/minutes/hours clock that wraps around once a day, and the stopwatch
//! that drives it from button and timer events.
use vstd::prelude::*;

verus! {

use vstd::arithmetic::div_mod::{lemma_add_mod_noop, lemma_small_mod, lemma_mod_self_0};

/// A time of day as `(hours, minutes, seconds)`.
pub type Hms = (u32, u32, u32);

/// The time lies within a day: hours below 24, minutes and seconds below 60.
pub open spec fn valid_hms(t: Hms) -> bool {
    t.0 < 24 && t.1 < 60 && t.2 < 60
}

/// Seconds elapsed since midnight.
pub open spec fn seconds_of_day(t: Hms) -> int {
    t.0 * 3600 + t.1 * 60 + t.2
}

/// Number of seconds in a day, after which the clock starts over.
pub open spec fn seconds_per_day() -> int {
    86400
}

/// One step of the clock: the seconds advance; a full minute carries into the minutes,
/// a full hour into the hours, and a full day starts over at midnight.
pub open spec fn tick_hms(t: Hms) -> Hms {
    let s = t.2 + 1;
    let (m, s) = if s > 59 {
        (t.1 + 1, 0int)
    } else {
        (t.1 as int, s)
    };
    let (h, m) = if m > 59 {
        (t.0 + 1, 0int)
    } else {
        (t.0 as int, m)
    };
    if h > 23 {
        (0, 0, 0)
    } else {
        (h as u32, m as u32, s as u32)
    }
}

/// The clock after `n` steps.
pub open spec fn ticks_hms(t: Hms, n: nat) -> Hms
    decreases n,
{
    if n == 0 {
        t
    } else {
        tick_hms(ticks_hms(t, (n - 1) as nat))
    }
}

/// Each step of a clock within the day advances it by exactly one second, modulo a day.
pub proof fn lemma_tick_adds_one_second(t: Hms)
    requires
        valid_hms(t),
    ensures
        valid_hms(tick_hms(t)),
        seconds_of_day(tick_hms(t)) == (seconds_of_day(t) + 1) % seconds_per_day(),
{
    if seconds_of_day(t) + 1 < 86400 {
        lemma_small_mod((seconds_of_day(t) + 1) as nat, 86400);
    } else {
        lemma_mod_self_0(86400);
    }
}

/// After `n` steps a clock within the day has advanced by `n` seconds, modulo a day.
pub proof fn lemma_ticks_add_seconds(t: Hms, n: nat)
    requires
        valid_hms(t),
    ensures
        valid_hms(ticks_hms(t, n)),
        seconds_of_day(ticks_hms(t, n)) == (seconds_of_day(t) + n) % seconds_per_day(),
    decreases n,
{
    if n == 0 {
        lemma_small_mod(seconds_of_day(t) as nat, 86400);
    } else {
        let prev = ticks_hms(t, (n - 1) as nat);
        lemma_ticks_add_seconds(t, (n - 1) as nat);
        lemma_tick_adds_one_second(prev);
        lemma_add_mod_noop(seconds_of_day(t) + n - 1, 1, 86400);
        lemma_small_mod(1, 86400);
    }
}

/// Two times within the day that are the same number of seconds past midnight are equal.
pub proof fn lemma_seconds_of_day_injective(a: Hms, b: Hms)
    requires
        valid_hms(a),
        valid_hms(b),
        seconds_of_day(a) == seconds_of_day(b),
    ensures
        a == b,
{
}

/// A full day of steps brings a clock back to the time it started from.
pub proof fn lemma_day_of_ticks_is_identity(t: Hms)
    requires
        valid_hms(t),
    ensures
        ticks_hms(t, 86400) == t,
{
    lemma_ticks_add_seconds(t, 86400);
    lemma_add_mod_noop(seconds_of_day(t), 86400, 86400);
    lemma_mod_self_0(86400);
    lemma_small_mod(seconds_of_day(t) as nat, 86400);
    lemma_seconds_of_day_injective(ticks_hms(t, 86400), t);
}

/// An elapsed-time clock of hours, minutes and seconds.
pub struct Clock {
    hours: u32,
    minutes: u32,
    seconds: u32,
}

impl View for Clock {
    type V = Hms;

    closed spec fn view(&self) -> Hms {
        (self.hours, self.minutes, self.seconds)
    }
}

impl Clock {
    #[verifier::type_invariant]
    spec fn within_day(self) -> bool {
        valid_hms(self@)
    }

    /// A clock at `00:00:00`.
    pub fn new() -> (c: Clock)
        ensures
            c@ == (0u32, 0u32, 0u32),
    {
        Clock { hours: 0, minutes: 0, seconds: 0 }
    }

    /// Advances the clock by one second.
    pub fn tick(&mut self)
        ensures
            valid_hms(old(self)@),
            final(self)@ == tick_hms(old(self)@),
            valid_hms(final(self)@),
    {
        proof {
            use_type_invariant(&*self);
        }
        let mut seconds = self.seconds + 1;
        let mut minutes = self.minutes;
        let mut hours = self.hours;
        if seconds > 59 {
            minutes = minutes + 1;
            seconds = 0;
        }
        if minutes > 59 {
            hours = hours + 1;
            minutes = 0;
        }
        if hours > 23 {
            seconds = 0;
            minutes = 0;
            hours = 0;
        }
        *self = Clock { hours, minutes, seconds };
    }

    /// Sets the clock back to `00:00:00`.
    pub fn reset(&mut self)
        ensures
            final(self)@ == (0u32, 0u32, 0u32),
    {
        *self = Clock { hours: 0, minutes: 0, seconds: 0 };
    }

    /// The hours shown.
    pub fn hours(&self) -> (h: u32)
        ensures
            h == self@.0,
            valid_hms(self@),
    {
        proof {
            use_type_invariant(self);
        }
        self.hours
    }

    /// The minutes shown.
    pub fn minutes(&self) -> (m: u32)
        ensures
            m == self@.1,
            valid_hms(self@),
    {
        proof {
            use_type_invariant(self);
        }
        self.minutes
    }

    /// The seconds shown.
    pub fn seconds(&self) -> (s: u32)
        ensures
            s == self@.2,
            valid_hms(self@),
    {
        proof {
            use_type_invariant(self);
        }
        self.seconds
    }
}

/// What the hardware timer is to do after a button event.
#[derive(PartialEq, Eq, Structural, Clone, Copy, Debug)]
pub enum TimerCommand {
    /// Load the one-second period, enable its interrupt and restart the count.
    Start,
    /// Stop counting.
    Stop,
}

/// The state of the stopwatch: its clock, whether it is running, and the events that
/// the interrupt handlers have raised and the main loop has not yet served.
pub struct StopwatchState {
    pub time: Hms,
    pub running: bool,
    pub tick_pending: bool,
    pub reset_pending: bool,
}

/// The state after the start/stop button, and the command it gives the timer.
pub open spec fn start_stop_spec(w: StopwatchState) -> (StopwatchState, TimerCommand) {
    (
        StopwatchState { running: !w.running, ..w },
        if w.running {
            TimerCommand::Stop
        } else {
            TimerCommand::Start
        },
    )
}

/// The state after the reset button: a reset is pending.
pub open spec fn reset_pressed_spec(w: StopwatchState) -> StopwatchState {
    StopwatchState { reset_pending: true, ..w }
}

/// The state after the one-second timer fired: a tick is pending.
pub open spec fn timer_expired_spec(w: StopwatchState) -> StopwatchState {
    StopwatchState { tick_pending: true, ..w }
}

/// The state after the main loop served the pending events, and the time it shows.
pub open spec fn service_spec(w: StopwatchState) -> (StopwatchState, Option<Hms>) {
    let ticked = if w.tick_pending {
        tick_hms(w.time)
    } else {
        w.time
    };
    (
        StopwatchState {
            time: if w.reset_pending {
                (0u32, 0u32, 0u32)
            } else {
                ticked
            },
            running: w.running && !w.reset_pending,
            tick_pending: false,
            reset_pending: false,
        },
        if w.tick_pending {
            Some(ticked)
        } else {
            None
        },
    )
}

/// Pressing start/stop twice leaves the stopwatch as it was, and the two presses give
/// opposite commands.
pub proof fn lemma_start_stop_twice(w: StopwatchState)
    ensures
        start_stop_spec(start_stop_spec(w).0).0 == w,
        start_stop_spec(start_stop_spec(w).0).1 != start_stop_spec(w).1,
{
}

/// Once a reset press has been served, the stopwatch reads `00:00:00` and is stopped,
/// whatever happened before.
pub proof fn lemma_reset_then_service(w: StopwatchState)
    ensures
        service_spec(reset_pressed_spec(w)).0.time == (0u32, 0u32, 0u32),
        !service_spec(reset_pressed_spec(w)).0.running,
{
}

/// Serving the loop without any pending event changes nothing and shows nothing.
pub proof fn lemma_idle_service(w: StopwatchState)
    requires
        !w.tick_pending,
        !w.reset_pending,
    ensures
        service_spec(w) == (w, None::<Hms>),
{
}

/// A start/stop press only flips whether the stopwatch runs: its time and its pending
/// events stay as they were, and the timer is told to start exactly when it was stopped.
pub proof fn lemma_start_stop_only_flips_running(w: StopwatchState)
    ensures
        start_stop_spec(w).0.running == !w.running,
        start_stop_spec(w).0.time == w.time,
        start_stop_spec(w).0.tick_pending == w.tick_pending,
        start_stop_spec(w).0.reset_pending == w.reset_pending,
        (start_stop_spec(w).1 == TimerCommand::Start) == !w.running,
{
}

/// A reset press only leaves a reset pending, and a timer expiry only leaves a tick
/// pending; neither touches the time or whether the stopwatch runs.
pub proof fn lemma_events_only_record(w: StopwatchState)
    ensures
        reset_pressed_spec(w).reset_pending,
        reset_pressed_spec(w).tick_pending == w.tick_pending,
        reset_pressed_spec(w).time == w.time,
        reset_pressed_spec(w).running == w.running,
        timer_expired_spec(w).tick_pending,
        timer_expired_spec(w).reset_pending == w.reset_pending,
        timer_expired_spec(w).time == w.time,
        timer_expired_spec(w).running == w.running,
{
}

/// Serving the main loop clears every pending event.
pub proof fn lemma_service_clears_pending(w: StopwatchState)
    ensures
        !service_spec(w).0.tick_pending,
        !service_spec(w).0.reset_pending,
{
}

/// A served tick with no reset pending advances a time within the day by one second,
/// shows that new time, and leaves the stopwatch running or stopped as it was.
pub proof fn lemma_service_tick(w: StopwatchState)
    requires
        valid_hms(w.time),
        w.tick_pending,
        !w.reset_pending,
    ensures
        valid_hms(service_spec(w).0.time),
        seconds_of_day(service_spec(w).0.time) == (seconds_of_day(w.time) + 1) % seconds_per_day(),
        service_spec(w).1 == Some(service_spec(w).0.time),
        service_spec(w).0.running == w.running,
{
    lemma_tick_adds_one_second(w.time);
}

/// Serving shows a time exactly when a tick was pending, and the time shown is one
/// second after the time before, modulo a day, whether or not a reset follows it.
pub proof fn lemma_service_shows_tick(w: StopwatchState)
    requires
        valid_hms(w.time),
    ensures
        service_spec(w).1 is Some <==> w.tick_pending,
        service_spec(w).1 matches Some(t) ==> valid_hms(t) && seconds_of_day(t) == (
        seconds_of_day(w.time) + 1) % seconds_per_day(),
        w.reset_pending ==> service_spec(w).0.time == (0u32, 0u32, 0u32) && !service_spec(
            w,
        ).0.running,
        !w.reset_pending && !w.tick_pending ==> service_spec(w).0.time == w.time,
{
    lemma_tick_adds_one_second(w.time);
}

/// After a reset has been served, pressing start, letting the timer fire once and
/// serving the loop leaves the stopwatch running at one second past zero, shown as such.
pub proof fn lemma_restart_after_reset(w: StopwatchState)
    ensures
        ({
            let served = service_spec(reset_pressed_spec(w)).0;
            let started = start_stop_spec(served).0;
            let (after, shown) = service_spec(timer_expired_spec(started));
            &&& after.time == (0u32, 0u32, 1u32)
            &&& after.running
            &&& !after.tick_pending
            &&& !after.reset_pending
            &&& shown == Some((0u32, 0u32, 1u32))
        }),
{
}

/// A stopwatch driven by a start/stop button, a reset button and a one-second timer.
///
/// The interrupt handlers only record events; the main loop serves them.
pub struct Stopwatch {
    clock: Clock,
    running: bool,
    tick_pending: bool,
    reset_pending: bool,
}

impl View for Stopwatch {
    type V = StopwatchState;

    closed spec fn view(&self) -> StopwatchState {
        StopwatchState {
            time: self.clock@,
            running: self.running,
            tick_pending: self.tick_pending,
            reset_pending: self.reset_pending,
        }
    }
}

impl Stopwatch {
    /// A stopped stopwatch at `00:00:00` with no pending event.
    pub fn new() -> (w: Stopwatch)
        ensures
            w@.time == (0u32, 0u32, 0u32),
            !w@.running,
            !w@.tick_pending,
            !w@.reset_pending,
    {
        Stopwatch { clock: Clock::new(), running: false, tick_pending: false, reset_pending: false }
    }

    /// The start/stop button was pressed: a running stopwatch stops, a stopped one starts.
    pub fn start_stop_pressed(&mut self) -> (cmd: TimerCommand)
        ensures
            (final(self)@, cmd) == start_stop_spec(old(self)@),
    {
        if self.running {
            self.running = false;
            TimerCommand::Stop
        } else {
            self.running = true;
            TimerCommand::Start
        }
    }

    /// The reset button was pressed: the timer stops and a reset is left for the main loop.
    pub fn reset_pressed(&mut self) -> (cmd: TimerCommand)
        ensures
            cmd == TimerCommand::Stop,
            final(self)@ == reset_pressed_spec(old(self)@),
    {
        self.reset_pending = true;
        TimerCommand::Stop
    }

    /// The one-second timer fired: a tick is left for the main loop.
    pub fn timer_expired(&mut self)
        ensures
            final(self)@ == timer_expired_spec(old(self)@),
    {
        self.tick_pending = true;
    }

    /// One pass of the main loop: a pending tick advances the clock, whose new time is
    /// returned for display; then a pending reset stops the stopwatch and zeroes the clock.
    pub fn service(&mut self) -> (shown: Option<Hms>)
        ensures
            (final(self)@, shown) == service_spec(old(self)@),
    {
        let mut shown: Option<Hms> = None;
        if self.tick_pending {
            self.tick_pending = false;
            self.clock.tick();
            shown = Some((self.clock.hours(), self.clock.minutes(), self.clock.seconds()));
        }
        if self.reset_pending {
            self.reset_pending = false;
            self.running = false;
            self.clock.reset();
        }
        shown
    }

    /// The time on the stopwatch.
    pub fn time(&self) -> (t: Hms)
        ensures
            t == self@.time,
            valid_hms(t),
    {
        (self.clock.hours(), self.clock.minutes(), self.clock.seconds())
    }

    /// Whether the stopwatch is counting.
    pub fn is_running(&self) -> (r: bool)
        ensures
            r == self@.running,
    {
        self.running
    }
}

} // verus!
