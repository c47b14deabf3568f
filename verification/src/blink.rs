//! Blink-rate state machines: the polled button that shortens the blink period of
//! one LED, the interrupt-driven button that speeds up a running light, and the
//! one-second check of a timer-driven blinker.
use vstd::prelude::*;

verus! {

/// The longest blink period of the polled blinker, in busy-loop iterations.
pub const SLOWEST_BLINK: u32 = 1_000_000;

/// How much one poll that sees the button held shortens the blink period.
pub const BLINK_STEP: u32 = 25_000;

/// The periods the polled blinker can have: the multiples of the step from one step up
/// to the slowest period.
pub open spec fn valid_blink_period(d: int) -> bool {
    25_000 <= d <= 1_000_000 && d % 25_000 == 0
}

/// The period after one poll that saw the button held: one step shorter, and back to
/// the slowest period once it would drop below one step.
pub open spec fn shortened_period(d: int) -> int {
    let next = d - 25_000;
    if next < 25_000 {
        1_000_000
    } else {
        next
    }
}

/// The period after `n` polls that saw the button held.
pub open spec fn shortened_period_n(d: int, n: nat) -> int
    decreases n,
{
    if n == 0 {
        d
    } else {
        shortened_period(shortened_period_n(d, (n - 1) as nat))
    }
}

/// The index of a valid period among the forty it can take, counting from the shortest.
pub open spec fn period_rank(d: int) -> int {
    d / 25_000 - 1
}

/// Each poll with the button held moves the period one place down the cycle of forty.
proof fn lemma_shortened_period_rank(d: int)
    requires
        valid_blink_period(d),
    ensures
        valid_blink_period(shortened_period(d)),
        period_rank(shortened_period(d)) == (period_rank(d) + 39) % 40,
{
}

/// After `n` held polls the period has moved `n` places down the cycle of forty.
pub proof fn lemma_shortened_period_n_rank(d: int, n: nat)
    requires
        valid_blink_period(d),
    ensures
        valid_blink_period(shortened_period_n(d, n)),
        period_rank(shortened_period_n(d, n)) == (period_rank(d) + 39 * n) % 40,
    decreases n,
{
    if n > 0 {
        lemma_shortened_period_n_rank(d, (n - 1) as nat);
        let prev = shortened_period_n(d, (n - 1) as nat);
        lemma_shortened_period_rank(prev);
        vstd::arithmetic::div_mod::lemma_add_mod_noop(period_rank(d) + 39 * (n - 1), 39, 40);
        vstd::arithmetic::div_mod::lemma_small_mod(39, 40);
    } else {
        vstd::arithmetic::div_mod::lemma_small_mod(period_rank(d) as nat, 40);
    }
}

/// Forty polls with the button held bring the blink period back to where it was.
pub proof fn lemma_forty_presses_restore_period(d: int)
    requires
        valid_blink_period(d),
    ensures
        shortened_period_n(d, 40) == d,
{
    lemma_shortened_period_n_rank(d, 40);
    vstd::arithmetic::div_mod::lemma_mod_multiples_vanish(39, period_rank(d), 40);
    vstd::arithmetic::div_mod::lemma_small_mod(period_rank(d) as nat, 40);
}

/// The blink period of an LED whose button is polled while it waits.
pub struct BlinkPeriod {
    period: u32,
}

impl View for BlinkPeriod {
    type V = int;

    closed spec fn view(&self) -> int {
        self.period as int
    }
}

impl BlinkPeriod {
    #[verifier::type_invariant]
    spec fn well_formed(self) -> bool {
        valid_blink_period(self.period as int)
    }

    /// The slowest period, which the blinker starts with.
    pub fn new() -> (b: BlinkPeriod)
        ensures
            b@ == 1_000_000,
    {
        BlinkPeriod { period: SLOWEST_BLINK }
    }

    /// The current period.
    pub fn period(&self) -> (p: u32)
        ensures
            p == self@,
            valid_blink_period(self@),
    {
        proof {
            use_type_invariant(self);
        }
        self.period
    }

    /// How many times the button is polled while the LED holds its state: one less
    /// than the period.
    pub fn polls_per_blink(&self) -> (n: u32)
        ensures
            n == self@ - 1,
    {
        proof {
            use_type_invariant(self);
        }
        self.period - 1
    }

    /// A poll saw the button held: the period gets one step shorter, starting over at
    /// the slowest period once it would drop below one step.
    pub fn button_held(&mut self)
        ensures
            final(self)@ == shortened_period(old(self)@),
            valid_blink_period(final(self)@),
    {
        proof {
            use_type_invariant(&*self);
        }
        let mut next = self.period - BLINK_STEP;
        if next < BLINK_STEP {
            next = SLOWEST_BLINK;
        }
        *self = BlinkPeriod { period: next };
    }
}

/// The blink delay of the running light after one press of its button, in
/// milliseconds: 50 ms shorter, or back to 200 ms once it is at 50 ms or below.
pub open spec fn next_light_delay_spec(delay: int) -> int {
    if delay <= 50 {
        200
    } else {
        delay - 50
    }
}

/// A press shortens a delay above 50 ms by 50 ms, and sets a delay of 50 ms or less
/// back to 200 ms.
pub proof fn lemma_next_light_delay(delay: int)
    ensures
        delay > 50 ==> next_light_delay_spec(delay) == delay - 50,
        delay <= 50 ==> next_light_delay_spec(delay) == 200,
{
}

/// A held poll shortens a period of at least two steps by one step of 25,000, and sets
/// a one-step period back to the slowest, 1,000,000.
pub proof fn lemma_shortened_period_steps(d: int)
    requires
        valid_blink_period(d),
    ensures
        d >= 50_000 ==> shortened_period(d) == d - 25_000,
        d == 25_000 ==> shortened_period(d) == 1_000_000,
{
}

/// The running light's delay after a button press.
pub fn next_light_delay(delay: u32) -> (next: u32)
    ensures
        next == next_light_delay_spec(delay as int),
        50 <= next <= 200 || next == delay - 50,
{
    if delay <= 50 {
        200
    } else {
        delay - 50
    }
}

/// Four presses bring each delay the running light steps through back to itself.
pub proof fn lemma_four_presses_restore_delay(delay: int)
    requires
        delay == 50 || delay == 100 || delay == 150 || delay == 200,
    ensures
        next_light_delay_spec(
            next_light_delay_spec(next_light_delay_spec(next_light_delay_spec(delay))),
        ) == delay,
{
}

/// Whether a timer-driven blinker is due to toggle: at least one whole second has passed
/// between the two readings of its microsecond counter.
pub fn second_elapsed(start_us: u64, now_us: u64) -> (due: bool)
    requires
        start_us <= now_us,
    ensures
        due == ((now_us - start_us) / 1_000_000 >= 1),
        due == (now_us - start_us >= 1_000_000),
{
    (now_us - start_us) / 1_000_000 >= 1
}

} // verus!
