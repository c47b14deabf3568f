//! PWM tone and position plans: the melody played on a buzzer and the duty cycles that
//! hold a servo at its two end positions.
use vstd::prelude::*;

verus! {

/// Duty cycle, in percent, while a note sounds.
pub const NOTE_DUTY_PCT: u8 = 20;

/// How long each note sounds, in milliseconds.
pub const NOTE_MS: u32 = 200;

/// The silence after each note, in milliseconds.
pub const NOTE_GAP_MS: u32 = 50;

/// The pause before the melody starts over, in milliseconds.
pub const SONG_PAUSE_MS: u32 = 1000;

/// The notes of "Happy Birthday", as frequencies in hertz.
pub open spec fn happy_birthday_spec() -> Seq<u32> {
    seq![
        262u32, 262, 294, 262, 349, 330, 262, 262, 294, 262, 392, 349, 262, 262, 523, 440, 349,
        330, 294, 466, 466, 440, 349, 392, 349,
    ]
}

/// The melody the buzzer plays.
pub fn happy_birthday() -> (notes: Vec<u32>)
    ensures
        notes@ == happy_birthday_spec(),
{
    vec![
        262, 262, 294, 262, 349, 330, 262, 262, 294, 262, 392, 349, 262, 262, 523, 440, 349, 330,
        294, 466, 466, 440, 349, 392, 349,
    ]
}

/// One step of a tone plan: the PWM frequency, its duty cycle, and how long it is held.
#[derive(PartialEq, Eq, Structural, Clone, Copy, Debug)]
pub struct ToneStep {
    pub frequency_hz: u32,
    pub duty_pct: u8,
    pub hold_ms: u32,
}

/// The two steps that play one note: the note sounding, then the same frequency silent.
pub open spec fn note_steps(frequency_hz: u32) -> (ToneStep, ToneStep) {
    (
        ToneStep { frequency_hz, duty_pct: 20, hold_ms: 200 },
        ToneStep { frequency_hz, duty_pct: 0, hold_ms: 50 },
    )
}

/// Each note sounds at 20 % duty for 200 ms and then falls silent at the same
/// frequency for 50 ms.
pub proof fn lemma_note_steps(frequency_hz: u32)
    ensures
        note_steps(frequency_hz).0 == (ToneStep { frequency_hz, duty_pct: 20, hold_ms: 200 }),
        note_steps(frequency_hz).1 == (ToneStep { frequency_hz, duty_pct: 0, hold_ms: 50 }),
{
}

/// The melody has 25 notes from C4 (262 Hz) up to C5 (523 Hz): it opens on two C4s
/// and ends on F4 (349 Hz), and its highest note is the fifteenth.
pub proof fn lemma_happy_birthday_shape()
    ensures
        happy_birthday_spec().len() == 25,
        happy_birthday_spec()[0] == 262 && happy_birthday_spec()[1] == 262,
        happy_birthday_spec()[24] == 349,
        happy_birthday_spec()[14] == 523,
        forall|i: int| 0 <= i < 25 ==> 262 <= #[trigger] happy_birthday_spec()[i] <= 523,
        happy_birthday_spec() =~= seq![262u32, 262, 294, 262, 349, 330]
            + seq![262u32, 262, 294, 262, 392, 349]
            + seq![262u32, 262, 523, 440, 349, 330, 294]
            + seq![466u32, 466, 440, 349, 392, 349],
{
}

/// The steps that play a melody once: for each note, in order, its sounding step and
/// its silent step.
pub fn tone_plan(melody: &Vec<u32>) -> (plan: Vec<ToneStep>)
    requires
        melody.len() * 2 <= usize::MAX,
    ensures
        plan.len() == 2 * melody.len(),
        forall|i: int|
            0 <= i < melody.len() ==> #[trigger] plan@[2 * i] == note_steps(melody@[i]).0 && plan@[2
                * i + 1] == note_steps(melody@[i]).1,
{
    let mut plan: Vec<ToneStep> = Vec::new();
    let mut i: usize = 0;
    while i < melody.len()
        invariant
            i <= melody.len(),
            plan.len() == 2 * i,
            forall|j: int|
                0 <= j < i ==> #[trigger] plan@[2 * j] == note_steps(melody@[j]).0 && plan@[2 * j
                    + 1] == note_steps(melody@[j]).1,
        decreases melody.len() - i,
    {
        let f = melody[i];
        plan.push(ToneStep { frequency_hz: f, duty_pct: NOTE_DUTY_PCT, hold_ms: NOTE_MS });
        plan.push(ToneStep { frequency_hz: f, duty_pct: 0, hold_ms: NOTE_GAP_MS });
        assert forall|j: int| 0 <= j < i + 1 implies #[trigger] plan@[2 * j] == note_steps(
            melody@[j],
        ).0 && plan@[2 * j + 1] == note_steps(melody@[j]).1 by {
            if j == i {
            }
        }
        i = i + 1;
    }
    plan
}

/// The end positions the servo swings between.
#[derive(PartialEq, Eq, Structural, Clone, Copy, Debug)]
pub enum ServoPosition {
    /// 0 degrees.
    Zero,
    /// 180 degrees.
    HalfTurn,
}

impl ServoPosition {
    /// The duty cycle, in percent of the 50 Hz period, that holds the servo there.
    pub fn duty_pct(&self) -> (d: u8)
        ensures
            d == (match *self {
                ServoPosition::Zero => 3u8,
                ServoPosition::HalfTurn => 12u8,
            }),
    {
        match self {
            ServoPosition::Zero => 3,
            ServoPosition::HalfTurn => 12,
        }
    }
}

} // verus!
