# cornix-rmk-custom indicator

The WS2812 status indicator of the Cornix split keyboard firmware, as a
verified library.

- `src/` (Verus): the indicator's logic.
  - `color.rs`: pixel colours and the breathing curve.
  - `pwm.rs`: the PWM word encoding of a two-pixel frame.
  - `event.rs`: the device events the indicator reads.
  - `indicator.rs`: the indicator state machine: how each event changes the
    cached state, which colour each pixel shows, and what a frame asks of the
    hardware (skip, or send a sequence with the LED rail switched around it).
  - `laws.rs`: properties that span several events or frames.
- `app/` (plain Rust): the RMK polling processor on the nRF52840 that converts
  RMK events, reads VBUS, and carries out the render plans with the PWM
  peripheral, the LED power rail and embassy timers.
