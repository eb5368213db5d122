//! Decision logic of a monitor and shutdown controller for a line-interactive
//! UPS that speaks the Megatec/Q1 text protocol over a serial line.
//!
//! The crate holds the rules only: the framing of an exchange on the wire, the
//! decoding of a status reply, the encoding of the cutoff command, the state
//! that is kept between two runs, and the decisions of the periodic monitor and
//! of the late-shutdown hook. Whoever drives the serial port, the clock and the
//! files hands their results to these functions as plain values.

pub mod config;
pub mod status_record;
pub mod wire;
pub mod ups;
pub mod monitor;
pub mod link;
pub mod handler;
pub mod shutdown;
