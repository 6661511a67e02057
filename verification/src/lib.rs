//! Control logic of a laptop power daemon and of its command-line client.
//!
//! The daemon keeps one [`manager::DeviceManager`]: the bound device, one power
//! profile per power source, the battery health optimizer and the identifiers of
//! the idle and active watches. Everything here is a function on plain values:
//! the hardware adapter, the buses, the socket and the preference file are driven
//! by the program around this library, which hands their answers in as arguments.

pub mod config;
pub mod device;
pub mod comms;
pub mod manager;
pub mod daemon;
pub mod cli;
