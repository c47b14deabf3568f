# esp32c3_demos

Programs for the ESP32-C3 devkit (blinking, ADC sensors, timers and interrupts, PWM,
UART, a DS1307 real-time clock, and embassy tasks), split in two:

- `src/` is a Verus-verified library with the computations and decisions of the
  programs: range mapping and duty cycles (`scale`), the wrapping clock and the
  stopwatch (`clock`), blink-rate state machines (`blink`), sensor classification
  (`sensors`), the whack-a-mole game (`mole`), DS1307 register encoding through the
  `nobcd` crate (`rtc`), buzzer and servo plans (`tones`), bit-banged output
  (`bitbang`), the press counter (`counter`) and the UART echo (`uart_echo`).
- `app/` is the firmware: it drives the peripherals with `esp-hal`, runs the embassy
  tasks, prints with `esp-println`, and calls the library for every decision. The
  thermistor programs compute in floating point with `libm` and stay there.

`tests/` exercises the library on concrete values.
