//! The whack-a-mole reaction game: the random waits of each round and the best
//! response time over all rounds.
use vstd::prelude::*;

verus! {

/// Seconds to wait before the mole shows, drawn from a random word: 1 to 5.
pub fn mole_wait_secs(random: u32) -> (secs: u64)
    ensures
        secs == random % 5 + 1,
        1 <= secs <= 5,
{
    (random % 5 + 1) as u64
}

/// Milliseconds the mole stays up, drawn from a random word: 500 to 1500.
pub fn mole_show_ms(random: u32) -> (ms: u64)
    ensures
        ms == random % 1001 + 500,
        500 <= ms <= 1500,
{
    (random % (1500 - 500 + 1) + 500) as u64
}

/// A response time in milliseconds, from the microsecond count of the response timer.
pub fn response_ms(timer_ticks_us: u64) -> (ms: u64)
    ensures
        ms == timer_ticks_us / 1_000,
{
    timer_ticks_us / 1_000
}

/// What one poll of a round decides while the mole is up.
#[derive(PartialEq, Eq, Structural, Clone, Copy, Debug)]
pub enum MolePoll {
    /// Neither the mole's time ran out nor was the button pressed: poll again.
    Waiting,
    /// The button was pressed in time; the response time in milliseconds.
    Whacked(u64),
    /// The mole's time ran out before the button was pressed.
    Escaped,
}

/// One poll of a round: once the mole's timer has fired the mole has escaped; before
/// that, a pressed button whacks it, with the response timer's count as the response.
pub open spec fn mole_poll_spec(timer_fired: bool, button_pressed: bool, response_timer_us: u64) -> MolePoll {
    if timer_fired {
        MolePoll::Escaped
    } else if button_pressed {
        MolePoll::Whacked(response_timer_us / 1_000)
    } else {
        MolePoll::Waiting
    }
}

/// An expired mole timer always means the mole escaped; before that, a press whacks it
/// with the response timer's count in whole milliseconds, and otherwise the round waits.
pub proof fn lemma_mole_poll(timer_fired: bool, button_pressed: bool, response_timer_us: u64)
    ensures
        timer_fired ==> mole_poll_spec(timer_fired, button_pressed, response_timer_us)
            == MolePoll::Escaped,
        !timer_fired && button_pressed ==> mole_poll_spec(
            timer_fired,
            button_pressed,
            response_timer_us,
        ) == MolePoll::Whacked(response_timer_us / 1000),
        !timer_fired && !button_pressed ==> mole_poll_spec(
            timer_fired,
            button_pressed,
            response_timer_us,
        ) == MolePoll::Waiting,
{
}

/// Decides one poll of a round from the mole's timer, the button and the response timer.
pub fn mole_poll(timer_fired: bool, button_pressed: bool, response_timer_us: u64) -> (p: MolePoll)
    ensures
        p == mole_poll_spec(timer_fired, button_pressed, response_timer_us),
{
    if timer_fired {
        MolePoll::Escaped
    } else if button_pressed {
        MolePoll::Whacked(response_ms(response_timer_us))
    } else {
        MolePoll::Waiting
    }
}

/// The best (smallest) response time seen so far, in milliseconds.
pub struct Scoreboard {
    best: u64,
}

impl View for Scoreboard {
    type V = u64;

    closed spec fn view(&self) -> u64 {
        self.best
    }
}

/// The best of a record and a new response time.
pub open spec fn better_of(best: u64, response: u64) -> u64 {
    if response < best {
        response
    } else {
        best
    }
}

/// The best after a sequence of responses, recorded in order.
pub open spec fn best_after(best: u64, responses: Seq<u64>) -> u64
    decreases responses.len(),
{
    if responses.len() == 0 {
        best
    } else {
        better_of(best_after(best, responses.drop_last()), responses.last())
    }
}

/// The best after a run of responses is no worse than the starting record and no worse
/// than any of the responses, and it is one of them or the starting record.
pub proof fn lemma_best_is_minimum(best: u64, responses: Seq<u64>)
    ensures
        best_after(best, responses) <= best,
        forall|i: int| 0 <= i < responses.len() ==> best_after(best, responses) <= #[trigger] responses[i],
        best_after(best, responses) == best || exists|i: int|
            0 <= i < responses.len() && best_after(best, responses) == #[trigger] responses[i],
    decreases responses.len(),
{
    if responses.len() > 0 {
        let init = responses.drop_last();
        lemma_best_is_minimum(best, init);
        assert forall|i: int| 0 <= i < responses.len() implies best_after(best, responses)
            <= #[trigger] responses[i] by {
            if i < init.len() {
                assert(init[i] == responses[i]);
            }
        }
        if best_after(best, responses) != best {
            if best_after(best, responses) == responses.last() {
                assert(responses[responses.len() - 1] == responses.last());
            } else {
                let i = choose|i: int|
                    0 <= i < init.len() && best_after(best, init) == #[trigger] init[i];
                assert(responses[i] == init[i]);
            }
        }
    }
}

/// Recording keeps the smaller of the record and the response.
pub proof fn lemma_better_of(best: u64, response: u64)
    ensures
        better_of(best, response) <= best,
        better_of(best, response) <= response,
        better_of(best, response) == best || better_of(best, response) == response,
{
}

impl Scoreboard {
    /// A scoreboard with no response yet: the record is the largest time there is.
    pub fn new() -> (s: Scoreboard)
        ensures
            s@ == u64::MAX,
    {
        Scoreboard { best: u64::MAX }
    }

    /// Records a response: it becomes the best when it is strictly faster.
    pub fn record(&mut self, response: u64)
        ensures
            final(self)@ == better_of(old(self)@, response),
    {
        if response < self.best {
            self.best = response;
        }
    }

    /// The best response time recorded.
    pub fn best(&self) -> (b: u64)
        ensures
            b == self@,
    {
        self.best
    }
}

} // verus!
