//! Core logic of a vehicle body-control node.
//!
//! The node listens to CAN bus traffic, decodes the Parameter Group Number
//! (PGN) carried in each extended frame identifier, routes known PGNs to the
//! lighting and horn handlers, drives the indicator and day-light outputs
//! from shared state and a monotonic clock, and proves the cadence of the
//! hardware-watchdog supervisor. Peripheral bring-up, interrupt plumbing and
//! pin access live outside this crate; everything here is plain logic on
//! plain values, verified.

pub mod actuation;
pub mod channel;
pub mod dispatch;
pub mod frame;
pub mod lights;
pub mod pgn;
pub mod system;
pub mod watchdog;
