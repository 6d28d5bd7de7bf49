//! Core of a terminal controller for a keyboard's RGB lighting over a
//! vendor-specific HID channel: device enumeration filtering, lighting
//! command encoding, and the session state machine that keeps the
//! UI-visible state consistent with what was actually written to hardware.
//!
//! The surrounding binary owns the OS-level HID handle and the terminal;
//! it feeds plain values (descriptors, open/write results) into this crate
//! and performs the writes this crate decides on.

pub mod color;
pub mod encoder;
pub mod enumerate;
pub mod errors;
pub mod screen;
pub mod session;
