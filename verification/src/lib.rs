//! Core logic of a battery-powered environmental beacon.
//!
//! The beacon periodically measures ambient temperature over a digital
//! sensor bus and supply voltage through an analog-to-digital converter,
//! encodes the latest readings into a fixed-layout broadcast payload, and
//! hands that payload to a radio transport. This crate holds the verified
//! core: the sensor register decoding, the voltage conversion, the payload
//! encoder, the single-slot sample mailbox, the temperature driver's
//! self-healing calibration state machine, and the coordination loop's
//! bookkeeping. Bus I/O, timers, and the radio itself are collaborators
//! that live outside this crate; they hand plain values in and take plain
//! values back.

pub mod config;
pub mod coordinator;
pub mod encoder;
pub mod mailbox;
pub mod temperature;
pub mod voltage;
