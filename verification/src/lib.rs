//! Status-indicator logic for the two WS2812 pixels on each half of a split
//! keyboard: the state machine that turns device events into pixel colours,
//! the breathing curve, and the PWM word encoding of a frame.

pub mod color;
pub mod event;
pub mod indicator;
pub mod pwm;
pub mod laws;
pub mod behaviour;
