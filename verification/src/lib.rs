//! Decision and arithmetic logic of a set of small ESP32-C3 programs:
//! range mapping and PWM duty computation, clocks and stopwatches,
//! blink-rate state machines, sensor classification, a reaction game,
//! and the register encoding of a DS1307 real-time clock.
//!
//! Everything that touches the hardware lives in the firmware crate under `app/`;
//! this crate only holds the computations, each with a contract that states its result.

pub mod scale;
pub mod clock;
pub mod blink;
pub mod sensors;
pub mod mole;
pub mod rtc;
pub mod tones;
pub mod bitbang;
pub mod counter;
pub mod uart_echo;
