//! Classification of analog readings: the joystick's position, the light level seen by
//! a light-dependent resistor, and the bar of LEDs lit by a dial.
use vstd::prelude::*;

verus! {

/// Where the joystick stands, read from its vertical and horizontal axes.
#[derive(PartialEq, Eq, Structural, Clone, Copy, Debug)]
pub enum JoystickPosition {
    TopLeft,
    Top,
    TopRight,
    Left,
    Center,
    Right,
    BottomLeft,
    Bottom,
    BottomRight,
    Unknown,
}

/// The position for a pair of axis readings: each axis must sit exactly at one of its
/// rest points 4095, 2048 or 0; anything else is unknown.
pub open spec fn joystick_position_spec(ver: u16, hor: u16) -> JoystickPosition {
    if ver == 4095 && hor == 4095 {
        JoystickPosition::TopLeft
    } else if ver == 4095 && hor == 2048 {
        JoystickPosition::Top
    } else if ver == 4095 && hor == 0 {
        JoystickPosition::TopRight
    } else if ver == 2048 && hor == 4095 {
        JoystickPosition::Left
    } else if ver == 2048 && hor == 2048 {
        JoystickPosition::Center
    } else if ver == 2048 && hor == 0 {
        JoystickPosition::Right
    } else if ver == 0 && hor == 4095 {
        JoystickPosition::BottomLeft
    } else if ver == 0 && hor == 2048 {
        JoystickPosition::Bottom
    } else if ver == 0 && hor == 0 {
        JoystickPosition::BottomRight
    } else {
        JoystickPosition::Unknown
    }
}

/// The vertical axis picks the row (4095 top, 2048 middle, 0 bottom) and the horizontal
/// axis the column (4095 left, 2048 middle, 0 right); any other reading is unknown.
pub proof fn lemma_joystick_grid(ver: u16, hor: u16)
    ensures
        joystick_position_spec(4095, 4095) == JoystickPosition::TopLeft,
        joystick_position_spec(4095, 2048) == JoystickPosition::Top,
        joystick_position_spec(4095, 0) == JoystickPosition::TopRight,
        joystick_position_spec(2048, 4095) == JoystickPosition::Left,
        joystick_position_spec(2048, 2048) == JoystickPosition::Center,
        joystick_position_spec(2048, 0) == JoystickPosition::Right,
        joystick_position_spec(0, 4095) == JoystickPosition::BottomLeft,
        joystick_position_spec(0, 2048) == JoystickPosition::Bottom,
        joystick_position_spec(0, 0) == JoystickPosition::BottomRight,
        !(ver == 0 || ver == 2048 || ver == 4095) || !(hor == 0 || hor == 2048 || hor == 4095)
            ==> joystick_position_spec(ver, hor) == JoystickPosition::Unknown,
{
}

/// Classifies the joystick from its vertical and horizontal readings.
pub fn joystick_position(ver: u16, hor: u16) -> (p: JoystickPosition)
    ensures
        p == joystick_position_spec(ver, hor),
{
    match (ver, hor) {
        (4095, 4095) => JoystickPosition::TopLeft,
        (4095, 2048) => JoystickPosition::Top,
        (4095, 0) => JoystickPosition::TopRight,
        (2048, 4095) => JoystickPosition::Left,
        (2048, 2048) => JoystickPosition::Center,
        (2048, 0) => JoystickPosition::Right,
        (0, 4095) => JoystickPosition::BottomLeft,
        (0, 2048) => JoystickPosition::Bottom,
        (0, 0) => JoystickPosition::BottomRight,
        _ => JoystickPosition::Unknown,
    }
}

impl JoystickPosition {
    /// The name printed for the position.
    pub fn name(&self) -> (s: &'static str)
        ensures
            s@ == (match *self {
                JoystickPosition::TopLeft => "Top-Left"@,
                JoystickPosition::Top => "Top"@,
                JoystickPosition::TopRight => "Top-Right"@,
                JoystickPosition::Left => "Left"@,
                JoystickPosition::Center => "Center"@,
                JoystickPosition::Right => "Right"@,
                JoystickPosition::BottomLeft => "Bottom-Left"@,
                JoystickPosition::Bottom => "Bottom"@,
                JoystickPosition::BottomRight => "Bottom-Right"@,
                JoystickPosition::Unknown => "Unknown"@,
            }),
    {
        match self {
            JoystickPosition::TopLeft => "Top-Left",
            JoystickPosition::Top => "Top",
            JoystickPosition::TopRight => "Top-Right",
            JoystickPosition::Left => "Left",
            JoystickPosition::Center => "Center",
            JoystickPosition::Right => "Right",
            JoystickPosition::BottomLeft => "Bottom-Left",
            JoystickPosition::Bottom => "Bottom",
            JoystickPosition::BottomRight => "Bottom-Right",
            JoystickPosition::Unknown => "Unknown",
        }
    }
}

/// The joystick's push button reads zero while it is pressed.
pub fn joystick_button_pressed(sel: u16) -> (pressed: bool)
    ensures
        pressed == (sel == 0),
{
    sel == 0
}

/// The light level that a light-dependent resistor reading stands for.
#[derive(PartialEq, Eq, Structural, Clone, Copy, Debug)]
pub enum LightCondition {
    FullMoon,
    DeepTwilight,
    Twilight,
    ComputerMonitor,
    StairwayLighting,
    OfficeLighting,
    OvercastDay,
    FullDaylight,
    DirectSunlight,
    Unknown,
}

/// The lower bound of each light level's band of readings, darkest first.
pub open spec fn light_condition_spec(sample: u16) -> LightCondition {
    if sample >= 4000 {
        LightCondition::FullMoon
    } else if sample >= 3940 {
        LightCondition::DeepTwilight
    } else if sample >= 3412 {
        LightCondition::Twilight
    } else if sample >= 2532 {
        LightCondition::ComputerMonitor
    } else if sample >= 2044 {
        LightCondition::StairwayLighting
    } else if sample >= 1124 {
        LightCondition::OfficeLighting
    } else if sample >= 680 {
        LightCondition::OvercastDay
    } else if sample >= 156 {
        LightCondition::FullDaylight
    } else if sample >= 32 {
        LightCondition::DirectSunlight
    } else {
        LightCondition::Unknown
    }
}

/// How dark a light level is: 0 for unknown readings, then 1 for direct sunlight up to
/// 9 for full moon.
pub open spec fn darkness(c: LightCondition) -> int {
    match c {
        LightCondition::Unknown => 0,
        LightCondition::DirectSunlight => 1,
        LightCondition::FullDaylight => 2,
        LightCondition::OvercastDay => 3,
        LightCondition::OfficeLighting => 4,
        LightCondition::StairwayLighting => 5,
        LightCondition::ComputerMonitor => 6,
        LightCondition::Twilight => 7,
        LightCondition::DeepTwilight => 8,
        LightCondition::FullMoon => 9,
    }
}

/// A higher reading never stands for a brighter light level.
pub proof fn lemma_light_condition_monotonic(a: u16, b: u16)
    requires
        a <= b,
    ensures
        darkness(light_condition_spec(a)) <= darkness(light_condition_spec(b)),
{
}

/// Each light level holds its whole band of readings, from its lower bound up to the
/// lower bound of the next darker level.
pub proof fn lemma_light_bands(s: u16)
    ensures
        4000 <= s ==> light_condition_spec(s) == LightCondition::FullMoon,
        3940 <= s < 4000 ==> light_condition_spec(s) == LightCondition::DeepTwilight,
        3412 <= s < 3940 ==> light_condition_spec(s) == LightCondition::Twilight,
        2532 <= s < 3412 ==> light_condition_spec(s) == LightCondition::ComputerMonitor,
        2044 <= s < 2532 ==> light_condition_spec(s) == LightCondition::StairwayLighting,
        1124 <= s < 2044 ==> light_condition_spec(s) == LightCondition::OfficeLighting,
        680 <= s < 1124 ==> light_condition_spec(s) == LightCondition::OvercastDay,
        156 <= s < 680 ==> light_condition_spec(s) == LightCondition::FullDaylight,
        32 <= s < 156 ==> light_condition_spec(s) == LightCondition::DirectSunlight,
        s < 32 ==> light_condition_spec(s) == LightCondition::Unknown,
{
}

/// Classifies a light-dependent resistor reading.
pub fn light_condition(sample: u16) -> (c: LightCondition)
    ensures
        c == light_condition_spec(sample),
{
    if sample >= 4000 {
        LightCondition::FullMoon
    } else if sample >= 3940 {
        LightCondition::DeepTwilight
    } else if sample >= 3412 {
        LightCondition::Twilight
    } else if sample >= 2532 {
        LightCondition::ComputerMonitor
    } else if sample >= 2044 {
        LightCondition::StairwayLighting
    } else if sample >= 1124 {
        LightCondition::OfficeLighting
    } else if sample >= 680 {
        LightCondition::OvercastDay
    } else if sample >= 156 {
        LightCondition::FullDaylight
    } else if sample >= 32 {
        LightCondition::DirectSunlight
    } else {
        LightCondition::Unknown
    }
}

impl LightCondition {
    /// The name printed for the light level.
    pub fn name(&self) -> (s: &'static str)
        ensures
            s@ == (match *self {
                LightCondition::FullMoon => "Full moon"@,
                LightCondition::DeepTwilight => "Deep twilight"@,
                LightCondition::Twilight => "Twilight"@,
                LightCondition::ComputerMonitor => "Computer monitor"@,
                LightCondition::StairwayLighting => "Stairway lighting"@,
                LightCondition::OfficeLighting => "Office lighting"@,
                LightCondition::OvercastDay => "Overcast day"@,
                LightCondition::FullDaylight => "Full daylight"@,
                LightCondition::DirectSunlight => "Direct sunlight"@,
                LightCondition::Unknown => "Unknown"@,
            }),
    {
        match self {
            LightCondition::FullMoon => "Full moon",
            LightCondition::DeepTwilight => "Deep twilight",
            LightCondition::Twilight => "Twilight",
            LightCondition::ComputerMonitor => "Computer monitor",
            LightCondition::StairwayLighting => "Stairway lighting",
            LightCondition::OfficeLighting => "Office lighting",
            LightCondition::OvercastDay => "Overcast day",
            LightCondition::FullDaylight => "Full daylight",
            LightCondition::DirectSunlight => "Direct sunlight",
            LightCondition::Unknown => "Unknown",
        }
    }
}

/// Number of LEDs in the dial's bar.
pub const DIAL_LEDS: usize = 8;

/// How many LEDs of the bar a dial reading lights: two more for each thousand of the
/// reading, all eight from 3000 on.
pub open spec fn dial_lit_count(sample: u16) -> int {
    if sample < 1000 {
        2
    } else if sample < 2000 {
        4
    } else if sample < 3000 {
        6
    } else {
        8
    }
}

/// The on/off pattern of the dial's bar, first LED first: 1 for lit, 0 for dark.
pub fn dial_pattern(sample: u16) -> (leds: [u32; 8])
    ensures
        forall|i: int|
            0 <= i < 8 ==> #[trigger] leds@[i] == (if i < dial_lit_count(sample) {
                1u32
            } else {
                0u32
            }),
{
    let lit: usize = if sample < 1000 {
        2
    } else if sample < 2000 {
        4
    } else if sample < 3000 {
        6
    } else {
        8
    };
    let mut leds: [u32; 8] = [0u32; 8];
    let mut i: usize = 0;
    while i < DIAL_LEDS
        invariant
            i <= 8,
            lit == dial_lit_count(sample),
            forall|j: int|
                0 <= j < i ==> #[trigger] leds@[j] == (if j < lit {
                    1u32
                } else {
                    0u32
                }),
        decreases 8 - i,
    {
        if i < lit {
            leds.set(i, 1);
        } else {
            leds.set(i, 0);
        }
        i = i + 1;
    }
    leds
}

/// The dial lights two LEDs per started thousand of its reading, counting the first
/// thousand, up to all eight.
pub proof fn lemma_dial_lit_count_formula(sample: u16)
    ensures
        dial_lit_count(sample) == 2 * ((if sample / 1000 < 3 {
            sample / 1000
        } else {
            3
        }) + 1),
{
}

/// A higher dial reading never lights fewer LEDs.
pub proof fn lemma_dial_monotonic(a: u16, b: u16)
    requires
        a <= b,
    ensures
        dial_lit_count(a) <= dial_lit_count(b),
{
}

} // verus!
