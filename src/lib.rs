//! Lifecycle control for a native VR streaming client hosted in an Android
//! activity, together with the device inspection it performs at start-up.

pub mod device;
pub mod lifecycle;
pub mod controller;
pub mod laws;
