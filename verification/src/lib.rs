//! Verified core of a cellular-modem management backend: AT response parsing,
//! modem profiles, USB-net mode detection and serial-channel framing rules.

pub mod text;
pub mod types;
pub mod profiles;
pub mod builtin;
pub mod registry;
pub mod hardware;
pub mod at_channel;
pub mod at_replies;
pub mod at_status;
pub mod diagnostics;
pub mod fingerprint;
pub mod mock;
pub mod speedtest;
pub mod detection;
pub mod usbnet;
pub mod antenna;
pub mod carrier;
pub mod signal_format;
pub mod laws;
pub mod reading_laws;
