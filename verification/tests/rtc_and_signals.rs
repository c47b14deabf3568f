use esp32c3_demos::uart_echo::{received_chunk, AT_CMD, READ_BUF_SIZE};
use esp32c3_demos::bitbang::{alternating_pattern, BitTransmitter};
use esp32c3_demos::rtc::{
    decode_registers, register_frame, setting_frames, start_datetime, weekday_name, DateTime,
    Ds1307Register, RtcError, RtcReading, Weekday, DS1307_ADDR,
};
use esp32c3_demos::tones::{happy_birthday, tone_plan, ServoPosition, ToneStep};

#[test]
fn register_frames_encode_bcd() {
    assert_eq!(DS1307_ADDR, 0x68);
    assert_eq!(register_frame(Ds1307Register::Seconds, 30), Ok([0, 0x30]));
    assert_eq!(register_frame(Ds1307Register::Hours, 9), Ok([2, 0x09]));
    assert_eq!(register_frame(Ds1307Register::Year, 99), Ok([6, 0x99]));
    assert_eq!(register_frame(Ds1307Register::Minutes, 0), Ok([1, 0x00]));
    assert_eq!(register_frame(Ds1307Register::Date, 100), Err(RtcError::ValueTooLarge));
    assert_eq!(register_frame(Ds1307Register::Month, 255), Err(RtcError::ValueTooLarge));
}

#[test]
fn start_datetime_frames() {
    let dt = start_datetime();
    assert_eq!(dt.day, Weekday::Wed.number());
    let frames = setting_frames(&dt).unwrap();
    assert_eq!(
        frames,
        vec![[0, 0x30], [1, 0x30], [2, 0x10], [3, 0x04], [4, 0x23], [5, 0x04], [6, 0x25]]
    );
    let bad = DateTime { sec: 0, min: 0, hrs: 0, day: 1, date: 1, mnth: 1, yr: 120 };
    assert_eq!(setting_frames(&bad), Err(RtcError::ValueTooLarge));
}

#[test]
fn decode_registers_masks_control_bits() {
    let regs = [0x80 | 0x45, 0x59, 0x40 | 0x23, 0x07, 0x31, 0x12, 0x99];
    assert_eq!(
        decode_registers(&regs),
        Ok(RtcReading {
            seconds: 45,
            minutes: 59,
            hours: 23,
            weekday: 7,
            day_of_month: 31,
            month: 12,
            year: 99
        })
    );
    assert_eq!(decode_registers(&[0x0a, 0, 0, 1, 1, 1, 0]), Err(RtcError::InvalidDigit));
    assert_eq!(decode_registers(&[0, 0, 0, 0xa1, 1, 1, 0]), Err(RtcError::InvalidDigit));
    assert_eq!(decode_registers(&[0, 0, 0, 1, 1, 1, 0xf0]), Err(RtcError::InvalidDigit));
}

#[test]
fn written_start_time_reads_back() {
    let dt = start_datetime();
    let frames = setting_frames(&dt).unwrap();
    let mut regs = [0u8; 7];
    for f in &frames {
        regs[f[0] as usize] = f[1];
    }
    let r = decode_registers(&regs).unwrap();
    assert_eq!(
        (r.seconds, r.minutes, r.hours, r.weekday, r.day_of_month, r.month, r.year),
        (30, 30, 10, 4, 23, 4, 25)
    );
    assert_eq!(weekday_name(r.weekday), "Wednesday");
}

#[test]
fn weekday_names() {
    assert_eq!(weekday_name(1), "Sunday");
    assert_eq!(weekday_name(2), "Monday");
    assert_eq!(weekday_name(3), "Tuesday");
    assert_eq!(weekday_name(5), "Thursday");
    assert_eq!(weekday_name(6), "Friday");
    assert_eq!(weekday_name(7), "Saturday");
    assert_eq!(weekday_name(0), "");
    assert_eq!(weekday_name(8), "");
    assert_eq!(Weekday::Sun.number(), 1);
    assert_eq!(Weekday::Fri.number(), 6);
}

#[test]
fn melody_and_tone_plan() {
    let melody = happy_birthday();
    assert_eq!(melody.len(), 25);
    assert_eq!(melody[14], 523);
    let plan = tone_plan(&melody);
    assert_eq!(plan.len(), 50);
    assert_eq!(plan[0], ToneStep { frequency_hz: 262, duty_pct: 20, hold_ms: 200 });
    assert_eq!(plan[1], ToneStep { frequency_hz: 262, duty_pct: 0, hold_ms: 50 });
    assert_eq!(plan[49], ToneStep { frequency_hz: 349, duty_pct: 0, hold_ms: 50 });
    assert!(tone_plan(&Vec::new()).is_empty());
}

#[test]
fn servo_duties() {
    assert_eq!(ServoPosition::Zero.duty_pct(), 3);
    assert_eq!(ServoPosition::HalfTurn.duty_pct(), 12);
}

#[test]
fn bit_transmitter_sends_pattern_once() {
    let mut t = BitTransmitter::new(alternating_pattern());
    let mut levels = Vec::new();
    while let Some(level) = t.next_level() {
        levels.push(level);
    }
    assert_eq!(
        levels,
        vec![true, false, true, false, true, false, true, false, true, false, true, false]
    );
    assert_eq!(t.next_level(), None);
    let mut u = BitTransmitter::new(vec![0, 7]);
    assert_eq!(u.next_level(), Some(false));
    assert_eq!(u.next_level(), Some(true));
    assert_eq!(u.next_level(), None);
}

#[test]
fn uart_received_chunk_is_prefix() {
    let mut buf = [0u8; READ_BUF_SIZE];
    buf[0] = b'h';
    buf[1] = b'i';
    buf[2] = AT_CMD;
    assert_eq!(received_chunk(&buf, 3), &[b'h', b'i', 0x0D]);
    assert!(received_chunk(&buf, 0).is_empty());
    assert_eq!(received_chunk(&buf, READ_BUF_SIZE).len(), 64);
}
