//! Decoding of channel state information (CSI) reports emitted by a
//! Nexmon-patched Broadcom BCM4366c0 radio.
//!
//! Everything in this crate works on integers and bytes: a packed sample is
//! kept as two signed mantissas and a shared exponent, so that every
//! function here has an exact contract.

pub mod frame;
pub mod ieee80211;
pub mod params;
pub mod proc;
