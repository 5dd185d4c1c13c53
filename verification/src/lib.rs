//! Control plane for a remote-controlled differential-drive rover.
//!
//! The crate models the rover's safety-critical core: an H-bridge motor
//! channel that must never assert an electrically unsafe pin combination,
//! a drive controller that pairs two channels into whole-rover motion with
//! idempotent transitions, the wireless-link bring-up state machine with a
//! bounded association retry budget, and the datagram command listener that
//! decodes drive commands from the last byte of each received payload.
//!
//! Hardware access (pin writes, the radio driver, the packet pump and the
//! datagram socket) is the caller's job: the library computes the desired
//! line levels and the next bring-up action, and the surrounding program
//! mirrors them onto the device.

pub mod link;
pub mod listener;
pub mod motors;
