//! Connection-session logic for a wireless button-and-joystick input device.
//!
//! The crate holds the decision layer of the firmware: building the
//! discoverability payload, the per-button debounce state machine, the
//! analog-stick level quantizer, the attribute read/write event router,
//! and the session state machine that ties them together. Everything
//! here is plain data in, plain data out; the radio, pins, timers and
//! peripherals that drive these decisions live outside the library.

pub mod advertiser;
pub mod audio;
pub mod battery;
pub mod display;
pub mod gatt;
pub mod hid;
pub mod session;
pub mod stick;
