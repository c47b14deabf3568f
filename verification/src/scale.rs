//! Linear range mapping and the duty-cycle arithmetic built on it.
use vstd::prelude::*;

verus! {

use vstd::arithmetic::div_mod::{lemma_div_is_ordered, lemma_div_by_multiple};
use vstd::arithmetic::mul::lemma_mul_inequality;

/// The value of `map`: `x` taken from `[in_min, in_max]` onto `[out_min, out_max]`,
/// rounding the scaled offset down.
pub open spec fn map_spec(x: int, in_min: int, in_max: int, out_min: int, out_max: int) -> int {
    (x - in_min) * (out_max - out_min) / (in_max - in_min) + out_min
}

/// Maps `x` linearly from the input range onto the output range, in integer arithmetic.
///
/// The inputs on which the computation would underflow, divide by zero or overflow
/// are left out.
pub fn map(x: u32, in_min: u32, in_max: u32, out_min: u32, out_max: u32) -> (r: u32)
    requires
        in_min <= x,
        in_min < in_max,
        out_min <= out_max,
        (x - in_min) * (out_max - out_min) <= u32::MAX,
        map_spec(x as int, in_min as int, in_max as int, out_min as int, out_max as int)
            <= u32::MAX,
    ensures
        r == map_spec(x as int, in_min as int, in_max as int, out_min as int, out_max as int),
{
    (x - in_min) * (out_max - out_min) / (in_max - in_min) + out_min
}

/// Every input of the input range lands in the output range: a mapped reading never
/// leaves `[out_min, out_max]`.
pub proof fn lemma_map_in_range(x: int, in_min: int, in_max: int, out_min: int, out_max: int)
    requires
        in_min <= x <= in_max,
        in_min < in_max,
        out_min <= out_max,
    ensures
        out_min <= map_spec(x, in_min, in_max, out_min, out_max) <= out_max,
{
    let span = in_max - in_min;
    let width = out_max - out_min;
    lemma_mul_inequality(0, x - in_min, width);
    lemma_mul_inequality(x - in_min, span, width);
    lemma_div_is_ordered(0, (x - in_min) * width, span);
    lemma_div_is_ordered((x - in_min) * width, span * width, span);
    assert(span * width == width * span) by (nonlinear_arith);
    lemma_div_by_multiple(width, span);
}

/// The mapping keeps the order of its inputs: a larger reading never maps lower.
pub proof fn lemma_map_monotonic(
    x: int,
    y: int,
    in_min: int,
    in_max: int,
    out_min: int,
    out_max: int,
)
    requires
        in_min <= x <= y,
        in_min < in_max,
        out_min <= out_max,
    ensures
        map_spec(x, in_min, in_max, out_min, out_max) <= map_spec(
            y,
            in_min,
            in_max,
            out_min,
            out_max,
        ),
{
    let width = out_max - out_min;
    lemma_mul_inequality(x - in_min, y - in_min, width);
    lemma_div_is_ordered((x - in_min) * width, (y - in_min) * width, in_max - in_min);
}

/// The mapping rounds down: the mapped offset times the input span is at most the
/// scaled input offset, and one more step of output would exceed it.
pub proof fn lemma_map_rounds_down(x: int, in_min: int, in_max: int, out_min: int, out_max: int)
    requires
        in_min <= x,
        in_min < in_max,
        out_min <= out_max,
    ensures
        ({
            let m = map_spec(x, in_min, in_max, out_min, out_max) - out_min;
            let scaled = (x - in_min) * (out_max - out_min);
            &&& m * (in_max - in_min) <= scaled
            &&& scaled < (m + 1) * (in_max - in_min)
        }),
{
    let span = in_max - in_min;
    let scaled = (x - in_min) * (out_max - out_min);
    vstd::arithmetic::div_mod::lemma_fundamental_div_mod(scaled, span);
    vstd::arithmetic::div_mod::lemma_mod_bound(scaled, span);
    let q = scaled / span;
    assert(q * span == span * q) by (nonlinear_arith);
    assert((q + 1) * span == q * span + span) by (nonlinear_arith);
}

/// The ends of the input range go to the ends of the output range.
pub proof fn lemma_map_endpoints(in_min: int, in_max: int, out_min: int, out_max: int)
    requires
        in_min < in_max,
        out_min <= out_max,
    ensures
        map_spec(in_min, in_min, in_max, out_min, out_max) == out_min,
        map_spec(in_max, in_min, in_max, out_min, out_max) == out_max,
{
    let span = in_max - in_min;
    let width = out_max - out_min;
    assert(span * width == width * span) by (nonlinear_arith);
    lemma_div_by_multiple(width, span);
}

/// Full-scale reading of the 12-bit ADC.
pub const ADC_FULL_SCALE: u32 = 4095;

/// Supply voltage of the ADC reference, in millivolts.
pub const ADC_REFERENCE_MV: u32 = 3300;

/// The duty percentage that a potentiometer reading gives: the reading mapped from
/// `[0, 4095]` onto `[0, 100]`, or `None` where that does not fit in a byte.
pub open spec fn potentiometer_duty_spec(sample: int) -> Option<u8> {
    let m = map_spec(sample, 0, 4095, 0, 100);
    if m <= 255 {
        Some(m as u8)
    } else {
        None
    }
}

/// The potentiometer's duty is the reading scaled to percent of 4095, rounded down,
/// whenever that fits in a byte, and absent otherwise.
pub proof fn lemma_potentiometer_duty(sample: u16)
    ensures
        potentiometer_duty_spec(sample as int) is Some <==> sample * 100 / 4095 <= 255,
        potentiometer_duty_spec(sample as int) matches Some(d) ==> d == sample * 100 / 4095,
{
}

/// Turns a potentiometer reading into an LED duty percentage.
///
/// A 12-bit reading always gives `Some`; a wider reading may not fit in a byte.
pub fn potentiometer_duty(sample: u16) -> (r: Option<u8>)
    ensures
        r == potentiometer_duty_spec(sample as int),
        sample <= 4095 ==> r is Some && r->0 <= 100,
{
    proof {
        lemma_div_is_ordered(sample * 100, 6_553_500int, 4095);
        if sample <= 4095 {
            lemma_map_in_range(sample as int, 0, 4095, 0, 100);
        }
    }
    let m = map(sample as u32, 0, ADC_FULL_SCALE, 0, 100);
    if m <= 255 {
        Some(m as u8)
    } else {
        None
    }
}

/// The duty percentage for one step of the fine-grained fade sweep: the step mapped
/// from `[0, 100000]` onto `[0, 100]`.
///
/// The steps on which the scaling overflows or the percentage does not fit in a byte
/// are left out.
pub fn sweep_duty(step: u32) -> (r: u8)
    requires
        step < 256_000,
    ensures
        r == map_spec(step as int, 0, 100_000, 0, 100),
        r == step / 1000,
{
    proof {
        lemma_div_is_ordered(step * 100, 25_600_000int, 100_000);
        assert(step * 100 / 100_000 == step / 1000) by {
            vstd::arithmetic::div_mod::lemma_div_denominator(step as int, 100, 1000);
            lemma_div_by_multiple(step as int, 100);
            assert(step * 100 == (step as int) * 100);
        }
    }
    let m = map(step, 0, 100_000, 0, 100);
    m as u8
}

/// Converts an ADC reading into millivolts against the 3.3 V reference.
pub fn adc_millivolts(sample: u16) -> (mv: u32)
    ensures
        mv == sample * 3300 / 4095,
        sample <= 4095 ==> mv <= 3300,
{
    proof {
        lemma_div_is_ordered(sample * 3300, 216_265_500int, 4095);
        if sample <= 4095 {
            lemma_div_is_ordered(sample * 3300, 13_513_500int, 4095);
            lemma_div_by_multiple(3300, 4095);
            assert(13_513_500int == 3300int * 4095);
        }
    }
    sample as u32 * ADC_REFERENCE_MV / ADC_FULL_SCALE
}

/// One fading cycle of an LED: duties rising from `min` up to `max - 1`, then falling
/// from `max - 1` back down to `min`.
///
/// Where `min` lies above `max` both sweeps are empty.
pub fn fade_cycle(min: u8, max: u8) -> (duties: Vec<u8>)
    ensures
        min > max ==> duties.len() == 0,
        min <= max ==> duties.len() == 2 * (max - min),
        forall|i: int| 0 <= i < max - min ==> #[trigger] duties@[i] == min + i,
        forall|i: int|
            0 <= i < max - min ==> #[trigger] duties@[(max - min) + i] == max - 1 - i,
        forall|i: int|
            0 <= i < duties.len() ==> #[trigger] duties@[i] == duties@[duties.len() - 1 - i],
{
    let mut duties: Vec<u8> = Vec::new();
    if min > max {
        return duties;
    }
    let mut duty: u8 = min;
    while duty < max
        invariant
            min <= duty <= max,
            duties.len() == duty - min,
            forall|i: int| 0 <= i < duties.len() ==> #[trigger] duties@[i] == min + i,
        decreases max - duty,
    {
        duties.push(duty);
        duty = duty + 1;
    }
    let n: usize = duties.len();
    while duty > min
        invariant
            min <= duty <= max,
            n == max - min,
            duties.len() == n + (max - duty),
            forall|i: int| 0 <= i < n ==> #[trigger] duties@[i] == min + i,
            forall|i: int| 0 <= i < max - duty ==> #[trigger] duties@[n + i] == max - 1 - i,
        decreases duty - min,
    {
        duty = duty - 1;
        duties.push(duty);
    }
    assert forall|i: int| 0 <= i < duties.len() implies #[trigger] duties@[i] == duties@[duties.len()
        - 1 - i] by {
        if i < n {
            assert(duties@[n + (n - 1 - i)] == max - 1 - (n - 1 - i));
        } else {
            assert(duties@[n + (i - n)] == max - 1 - (i - n));
        }
    }
    duties
}

/// The period of the software PWM, in milliseconds, for a given frequency setting.
pub fn pwm_period_ms(frequency_hz: u32) -> (period: u32)
    requires
        frequency_hz > 0,
    ensures
        period == 10_000u32 / frequency_hz,
{
    10_000 / frequency_hz
}

/// Splits a software-PWM period into its on and off times for an intensity in percent.
///
/// The inputs on which the scaling overflows, or the on time exceeds the period, are
/// left out.
pub fn pwm_split(period: u32, intensity: u32) -> (times: (u32, u32))
    requires
        period * intensity <= u32::MAX,
        period * intensity / 100 <= period,
    ensures
        times.0 == period * intensity / 100,
        times.0 + times.1 == period,
{
    let on = period * intensity / 100;
    (on, period - on)
}

} // verus!
