//! Host-side handshake protocol for a payload device on a point-to-point
//! serial link.
//!
//! The crate is the decision core of the exchange: what to send, what to wait
//! for, how long to wait, and how to classify the outcome. The transport
//! (framing, checksums, the serial port itself) and the command codec are
//! external collaborators; the core is written as a state machine that tells
//! its driver which transport or codec action to perform next and consumes
//! the outcome of each action as an event.

pub mod laws;
pub mod protocol;
pub mod subsystem;
