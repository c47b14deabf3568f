//! The DS1307 real-time clock: the register frames that set it, and the decoding of
//! the seven time registers read back from it, in binary-coded decimal.
use vstd::prelude::*;

verus! {

/// The DS1307's address on the I2C bus.
pub const DS1307_ADDR: u8 = 0x68;

#[verifier::external_type_specification]
#[verifier::external_body]
pub struct ExBcdError(nobcd::BcdError);

/// The byte that holds a value below 100 in binary-coded decimal: tens in the high
/// nibble, ones in the low nibble.
pub open spec fn bcd_byte(value: int) -> int {
    (value / 10) * 16 + value % 10
}

/// Both nibbles of the byte are decimal digits.
pub open spec fn bcd_digits_valid(byte: int) -> bool {
    byte / 16 <= 9 && byte % 16 <= 9
}

/// The value of a binary-coded-decimal byte.
pub open spec fn bcd_value(byte: int) -> int {
    (byte / 16) * 10 + byte % 16
}

/// `nobcd::BcdNumber::<1>::new` followed by `bcd_bytes`: nobcd returns an overflow
/// error exactly when the value has more than two decimal digits, and otherwise one byte
/// with the tens digit in its high nibble and the ones digit in its low nibble.
#[verifier::external_body]
fn bcd_encode(value: u8) -> (r: Result<u8, nobcd::BcdError>)
    ensures
        r is Ok <==> value < 100,
        r matches Ok(b) ==> b == bcd_byte(value as int),
{
    match nobcd::BcdNumber::<1>::new(value) {
        Ok(n) => Ok(n.bcd_bytes()[0]),
        Err(e) => Err(e),
    }
}

/// `nobcd::BcdNumber::<1>::from_bcd_bytes` followed by `value::<u8>`: nobcd returns
/// an invalid-digit error exactly when a nibble of the byte is above 9, and otherwise the
/// value ten times the high nibble plus the low nibble.
#[verifier::external_body]
fn bcd_decode(byte: u8) -> (r: Result<u8, nobcd::BcdError>)
    ensures
        r is Ok <==> bcd_digits_valid(byte as int),
        r matches Ok(v) ==> v == bcd_value(byte as int),
{
    match nobcd::BcdNumber::<1>::from_bcd_bytes([byte]) {
        Ok(n) => Ok(n.value::<u8>()),
        Err(e) => Err(e),
    }
}

/// Reading a value below 100 back from its binary-coded-decimal byte gives the value.
pub proof fn lemma_bcd_round_trip(value: int)
    requires
        0 <= value < 100,
    ensures
        0 <= bcd_byte(value) <= 0x99,
        bcd_digits_valid(bcd_byte(value)),
        bcd_value(bcd_byte(value)) == value,
{
    let t = value / 10;
    let o = value % 10;
    assert(bcd_byte(value) / 16 == t && bcd_byte(value) % 16 == o) by {
        vstd::arithmetic::div_mod::lemma_fundamental_div_mod_converse(bcd_byte(value), 16, t, o);
    }
}

/// Encoding the value of a valid binary-coded-decimal byte gives the byte back.
pub proof fn lemma_bcd_byte_of_value(byte: int)
    requires
        0 <= byte < 256,
        bcd_digits_valid(byte),
    ensures
        bcd_value(byte) < 100,
        bcd_byte(bcd_value(byte)) == byte,
{
    let h = byte / 16;
    let l = byte % 16;
    assert(bcd_value(byte) / 10 == h && bcd_value(byte) % 10 == l) by {
        vstd::arithmetic::div_mod::lemma_fundamental_div_mod_converse(bcd_value(byte), 10, h, l);
    }
}

/// Why a value could not be exchanged with the clock.
#[derive(PartialEq, Eq, Structural, Clone, Copy, Debug)]
pub enum RtcError {
    /// A value to be written has more than two decimal digits.
    ValueTooLarge,
    /// A register read back holds a nibble that is not a decimal digit.
    InvalidDigit,
}

/// The DS1307's time-keeping registers, in address order.
#[derive(PartialEq, Eq, Structural, Clone, Copy, Debug)]
pub enum Ds1307Register {
    Seconds,
    Minutes,
    Hours,
    Day,
    Date,
    Month,
    Year,
}

/// The address of a time-keeping register: its place in the register map, from 0.
pub open spec fn register_address_spec(reg: Ds1307Register) -> u8 {
    match reg {
        Ds1307Register::Seconds => 0,
        Ds1307Register::Minutes => 1,
        Ds1307Register::Hours => 2,
        Ds1307Register::Day => 3,
        Ds1307Register::Date => 4,
        Ds1307Register::Month => 5,
        Ds1307Register::Year => 6,
    }
}

impl Ds1307Register {
    /// The register's address.
    pub fn address(&self) -> (a: u8)
        ensures
            a == register_address_spec(*self),
    {
        match self {
            Ds1307Register::Seconds => 0,
            Ds1307Register::Minutes => 1,
            Ds1307Register::Hours => 2,
            Ds1307Register::Day => 3,
            Ds1307Register::Date => 4,
            Ds1307Register::Month => 5,
            Ds1307Register::Year => 6,
        }
    }
}

/// The frame that writes `value` to register `reg`: the register's address, then the
/// value in binary-coded decimal; an error for a value of more than two digits.
pub fn register_frame(reg: Ds1307Register, value: u8) -> (r: Result<[u8; 2], RtcError>)
    ensures
        r is Ok <==> value < 100,
        r matches Ok(f) ==> f@ == seq![register_address_spec(reg), bcd_byte(value as int) as u8],
        r matches Err(e) ==> e == RtcError::ValueTooLarge,
{
    match bcd_encode(value) {
        Ok(b) => Ok([reg.address(), b]),
        Err(_) => Err(RtcError::ValueTooLarge),
    }
}

/// The days of the week that the clock is set with, numbered from Sunday as 1.
#[derive(PartialEq, Eq, Structural, Clone, Copy, Debug)]
pub enum Weekday {
    Sun,
    Mon,
    Tues,
    Wed,
    Thurs,
    Fri,
}

impl Weekday {
    /// The day's number in the clock's day-of-week register.
    pub fn number(&self) -> (n: u8)
        ensures
            n == (match *self {
                Weekday::Sun => 1u8,
                Weekday::Mon => 2u8,
                Weekday::Tues => 3u8,
                Weekday::Wed => 4u8,
                Weekday::Thurs => 5u8,
                Weekday::Fri => 6u8,
            }),
    {
        match self {
            Weekday::Sun => 1,
            Weekday::Mon => 2,
            Weekday::Tues => 3,
            Weekday::Wed => 4,
            Weekday::Thurs => 5,
            Weekday::Fri => 6,
        }
    }
}

/// A date and time in the clock's own fields; the year counts from 2000.
#[derive(PartialEq, Eq, Structural, Clone, Copy, Debug)]
pub struct DateTime {
    pub sec: u8,
    pub min: u8,
    pub hrs: u8,
    pub day: u8,
    pub date: u8,
    pub mnth: u8,
    pub yr: u8,
}

/// The date and time the clock is set to at start-up: Wednesday 23/4/2025, 10:30:30.
pub fn start_datetime() -> (dt: DateTime)
    ensures
        dt == (DateTime { sec: 30, min: 30, hrs: 10, day: 4, date: 23, mnth: 4, yr: 25 }),
{
    DateTime { sec: 30, min: 30, hrs: 10, day: Weekday::Wed.number(), date: 23, mnth: 4, yr: 25 }
}

/// The field of a date and time that register `i` holds, in address order.
pub open spec fn datetime_field(dt: DateTime, i: int) -> u8 {
    if i == 0 {
        dt.sec
    } else if i == 1 {
        dt.min
    } else if i == 2 {
        dt.hrs
    } else if i == 3 {
        dt.day
    } else if i == 4 {
        dt.date
    } else if i == 5 {
        dt.mnth
    } else {
        dt.yr
    }
}

/// Every field has at most two decimal digits.
pub open spec fn datetime_encodable(dt: DateTime) -> bool {
    forall|i: int| 0 <= i < 7 ==> #[trigger] datetime_field(dt, i) < 100
}

/// The seven frames that set the clock to `dt`, seconds first; an error where a field
/// has more than two decimal digits.
pub fn setting_frames(dt: &DateTime) -> (r: Result<Vec<[u8; 2]>, RtcError>)
    ensures
        r is Ok <==> datetime_encodable(*dt),
        r matches Ok(frames) ==> frames.len() == 7 && forall|i: int|
            0 <= i < 7 ==> (#[trigger] frames@[i])@ == seq![
                i as u8,
                bcd_byte(datetime_field(*dt, i) as int) as u8,
            ],
        r matches Err(e) ==> e == RtcError::ValueTooLarge,
{
    let regs: [Ds1307Register; 7] = [
        Ds1307Register::Seconds,
        Ds1307Register::Minutes,
        Ds1307Register::Hours,
        Ds1307Register::Day,
        Ds1307Register::Date,
        Ds1307Register::Month,
        Ds1307Register::Year,
    ];
    let values: [u8; 7] = [dt.sec, dt.min, dt.hrs, dt.day, dt.date, dt.mnth, dt.yr];
    assert(forall|i: int| 0 <= i < 7 ==> #[trigger] values@[i] == datetime_field(*dt, i));
    assert(forall|i: int| 0 <= i < 7 ==> register_address_spec(#[trigger] regs@[i]) == i);
    let mut frames: Vec<[u8; 2]> = Vec::new();
    let mut i: usize = 0;
    while i < 7
        invariant
            i <= 7,
            frames.len() == i,
            forall|j: int| 0 <= j < 7 ==> #[trigger] values@[j] == datetime_field(*dt, j),
            forall|j: int| 0 <= j < 7 ==> register_address_spec(#[trigger] regs@[j]) == j,
            forall|j: int| 0 <= j < i ==> #[trigger] datetime_field(*dt, j) < 100,
            forall|j: int|
                0 <= j < i ==> (#[trigger] frames@[j])@ == seq![
                    j as u8,
                    bcd_byte(datetime_field(*dt, j) as int) as u8,
                ],
        decreases 7 - i,
    {
        match register_frame(regs[i], values[i]) {
            Ok(f) => {
                frames.push(f);
            },
            Err(e) => {
                assert(!(datetime_field(*dt, i as int) < 100));
                return Err(e);
            },
        }
        i = i + 1;
    }
    Ok(frames)
}

/// The time read back from the clock, in the order its registers hold it.
#[derive(PartialEq, Eq, Structural, Clone, Copy, Debug)]
pub struct RtcReading {
    pub seconds: u8,
    pub minutes: u8,
    pub hours: u8,
    pub weekday: u8,
    pub day_of_month: u8,
    pub month: u8,
    pub year: u8,
}

/// The seconds register with its clock-halt bit cleared.
pub open spec fn seconds_bits(regs: Seq<u8>) -> u8 {
    regs[0] & 0x7f
}

/// The hours register with its 12/24-hour mode bits cleared.
pub open spec fn hours_bits(regs: Seq<u8>) -> u8 {
    regs[2] & 0x3f
}

/// The reading that the seven registers hold, or an error where one of them (seconds
/// and hours without their control bits) is not binary-coded decimal.
pub open spec fn decode_spec(regs: Seq<u8>) -> Result<RtcReading, RtcError> {
    if bcd_digits_valid(seconds_bits(regs) as int) && bcd_digits_valid(regs[1] as int)
        && bcd_digits_valid(hours_bits(regs) as int) && bcd_digits_valid(regs[3] as int)
        && bcd_digits_valid(regs[4] as int) && bcd_digits_valid(regs[5] as int)
        && bcd_digits_valid(regs[6] as int) {
        Ok(
            RtcReading {
                seconds: bcd_value(seconds_bits(regs) as int) as u8,
                minutes: bcd_value(regs[1] as int) as u8,
                hours: bcd_value(hours_bits(regs) as int) as u8,
                weekday: bcd_value(regs[3] as int) as u8,
                day_of_month: bcd_value(regs[4] as int) as u8,
                month: bcd_value(regs[5] as int) as u8,
                year: bcd_value(regs[6] as int) as u8,
            },
        )
    } else {
        Err(RtcError::InvalidDigit)
    }
}

/// Decodes the seven time-keeping registers, read from address 0 on.
pub fn decode_registers(regs: &[u8; 7]) -> (r: Result<RtcReading, RtcError>)
    ensures
        r == decode_spec(regs@),
{
    let seconds = match bcd_decode(regs[0] & 0x7f) {
        Ok(v) => v,
        Err(_) => return Err(RtcError::InvalidDigit),
    };
    let minutes = match bcd_decode(regs[1]) {
        Ok(v) => v,
        Err(_) => return Err(RtcError::InvalidDigit),
    };
    let hours = match bcd_decode(regs[2] & 0x3f) {
        Ok(v) => v,
        Err(_) => return Err(RtcError::InvalidDigit),
    };
    let day_of_month = match bcd_decode(regs[4]) {
        Ok(v) => v,
        Err(_) => return Err(RtcError::InvalidDigit),
    };
    let month = match bcd_decode(regs[5]) {
        Ok(v) => v,
        Err(_) => return Err(RtcError::InvalidDigit),
    };
    let year = match bcd_decode(regs[6]) {
        Ok(v) => v,
        Err(_) => return Err(RtcError::InvalidDigit),
    };
    let weekday = match bcd_decode(regs[3]) {
        Ok(v) => v,
        Err(_) => return Err(RtcError::InvalidDigit),
    };
    Ok(RtcReading { seconds, minutes, hours, weekday, day_of_month, month, year })
}

/// The register contents that the setting frames for `dt` leave in the clock.
pub open spec fn written_registers(dt: DateTime) -> Seq<u8> {
    Seq::new(7, |i: int| bcd_byte(datetime_field(dt, i) as int) as u8)
}

/// The reading that holds the same fields as `dt`.
pub open spec fn reading_of(dt: DateTime) -> RtcReading {
    RtcReading {
        seconds: dt.sec,
        minutes: dt.min,
        hours: dt.hrs,
        weekday: dt.day,
        day_of_month: dt.date,
        month: dt.mnth,
        year: dt.yr,
    }
}

/// Reading the registers back after setting the clock gives the fields that were
/// written, as long as the seconds and hours stay clear of the control bits that the
/// decoding masks off.
pub proof fn lemma_written_registers_read_back(dt: DateTime)
    requires
        datetime_encodable(dt),
        dt.sec < 80,
        dt.hrs < 40,
    ensures
        decode_spec(written_registers(dt)) == Ok::<RtcReading, RtcError>(reading_of(dt)),
{
    let regs = written_registers(dt);
    assert forall|i: int| 0 <= i < 7 implies bcd_digits_valid(#[trigger] regs[i] as int)
        && bcd_value(regs[i] as int) == datetime_field(dt, i) by {
        assert(datetime_field(dt, i) < 100);
        lemma_bcd_round_trip(datetime_field(dt, i) as int);
    }
    let s = regs[0];
    let h = regs[2];
    lemma_bcd_round_trip(dt.sec as int);
    lemma_bcd_round_trip(dt.hrs as int);
    assert(s < 0x80) by {
        assert(bcd_byte(dt.sec as int) == (dt.sec / 10) * 16 + dt.sec % 10);
    }
    assert(h < 0x40) by {
        assert(bcd_byte(dt.hrs as int) == (dt.hrs / 10) * 16 + dt.hrs % 10);
    }
    assert(s & 0x7f == s) by (bit_vector)
        requires
            s < 0x80u8,
    ;
    assert(h & 0x3f == h) by (bit_vector)
        requires
            h < 0x40u8,
    ;
    assert(seconds_bits(regs) == s);
    assert(hours_bits(regs) == h);
    assert(regs[1] == bcd_byte(dt.min as int) as u8);
}

/// The time-keeping registers sit at the DS1307's addresses 0 to 6 in this order:
/// seconds, minutes, hours, day of week, date, month, year.
pub proof fn lemma_register_map()
    ensures
        register_address_spec(Ds1307Register::Seconds) == 0,
        register_address_spec(Ds1307Register::Minutes) == 1,
        register_address_spec(Ds1307Register::Hours) == 2,
        register_address_spec(Ds1307Register::Day) == 3,
        register_address_spec(Ds1307Register::Date) == 4,
        register_address_spec(Ds1307Register::Month) == 5,
        register_address_spec(Ds1307Register::Year) == 6,
{
}

/// A decoded reading encodes back to the registers it came from: each field in
/// binary-coded decimal is its register, seconds without the clock-halt bit and hours
/// without the mode bits; and the day of month, month and year come from registers
/// 4, 5 and 6.
pub proof fn lemma_decode_encodes_back(regs: Seq<u8>)
    requires
        regs.len() == 7,
    ensures
        decode_spec(regs) is Err ==> decode_spec(regs) == Err::<RtcReading, RtcError>(
            RtcError::InvalidDigit,
        ),
        (forall|i: int| 0 <= i < 7 ==> (#[trigger] regs[i]) / 16 <= 9 && regs[i] % 16 <= 9)
            ==> decode_spec(regs) is Ok,
        decode_spec(regs) matches Ok(r) ==> {
            &&& bcd_byte(r.seconds as int) == (regs[0] & 0x7f)
            &&& bcd_byte(r.minutes as int) == regs[1]
            &&& bcd_byte(r.hours as int) == (regs[2] & 0x3f)
            &&& bcd_byte(r.weekday as int) == regs[3]
            &&& bcd_byte(r.day_of_month as int) == regs[4]
            &&& bcd_byte(r.month as int) == regs[5]
            &&& bcd_byte(r.year as int) == regs[6]
        },
{
    if forall|i: int| 0 <= i < 7 ==> (#[trigger] regs[i]) / 16 <= 9 && regs[i] % 16 <= 9 {
        let s = regs[0];
        let h = regs[2];
        assert(s / 16 <= 9 && s % 16 <= 9);
        assert(h / 16 <= 9 && h % 16 <= 9);
        assert((s & 0x7f) / 16 <= 9 && (s & 0x7f) % 16 <= 9) by (bit_vector)
            requires
                s / 16 <= 9 && s % 16 <= 9,
        ;
        assert((h & 0x3f) / 16 <= 9 && (h & 0x3f) % 16 <= 9) by (bit_vector)
            requires
                h / 16 <= 9 && h % 16 <= 9,
        ;
        assert(regs[1] / 16 <= 9 && regs[3] / 16 <= 9 && regs[4] / 16 <= 9);
        assert(regs[5] / 16 <= 9 && regs[6] / 16 <= 9);
    }
    if decode_spec(regs) is Ok {
        lemma_bcd_byte_of_value(seconds_bits(regs) as int);
        lemma_bcd_byte_of_value(regs[1] as int);
        lemma_bcd_byte_of_value(hours_bits(regs) as int);
        lemma_bcd_byte_of_value(regs[3] as int);
        lemma_bcd_byte_of_value(regs[4] as int);
        lemma_bcd_byte_of_value(regs[5] as int);
        lemma_bcd_byte_of_value(regs[6] as int);
    }
}

/// Decoding ignores the seconds register's clock-halt bit (bit 7) and the hours
/// register's mode bits (bits 6 and 7), and nothing else of those two registers.
pub proof fn lemma_decode_ignores_control_bits(regs: Seq<u8>, halt: u8, mode: u8)
    requires
        regs.len() == 7,
        halt & 0x7f == 0,
        mode & 0x3f == 0,
    ensures
        decode_spec(regs.update(0, regs[0] | halt).update(2, regs[2] | mode)) == decode_spec(regs),
{
    let s = regs[0];
    let h = regs[2];
    assert((s | halt) & 0x7f == s & 0x7f) by (bit_vector)
        requires
            halt & 0x7f == 0,
    ;
    assert((h | mode) & 0x3f == h & 0x3f) by (bit_vector)
        requires
            mode & 0x3f == 0,
    ;
    let r2 = regs.update(0, regs[0] | halt).update(2, regs[2] | mode);
    assert(seconds_bits(r2) == seconds_bits(regs));
    assert(hours_bits(r2) == hours_bits(regs));
}

/// The name of a day-of-week register value, Sunday being 1; empty for other values.
pub fn weekday_name(dow: u8) -> (name: &'static str)
    ensures
        name@ == (if dow == 1 {
            "Sunday"@
        } else if dow == 2 {
            "Monday"@
        } else if dow == 3 {
            "Tuesday"@
        } else if dow == 4 {
            "Wednesday"@
        } else if dow == 5 {
            "Thursday"@
        } else if dow == 6 {
            "Friday"@
        } else if dow == 7 {
            "Saturday"@
        } else {
            ""@
        }),
{
    match dow {
        1 => "Sunday",
        2 => "Monday",
        3 => "Tuesday",
        4 => "Wednesday",
        5 => "Thursday",
        6 => "Friday",
        7 => "Saturday",
        _ => "",
    }
}

} // verus!
