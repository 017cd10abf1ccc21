//! Interrupt-driven control logic of an infrared transmitter / clock device:
//! a tick-scheduled pulse-distance encoder, two byte-framed decoders, and the
//! decisions the interrupt handlers make around them.
pub mod irsender;
pub mod receiver;
pub mod timesync;
pub mod decoder;
pub mod logger;
pub mod dispatch;
pub mod leds;
pub mod timewriter;
pub mod display_protocol;
