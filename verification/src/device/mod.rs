//! Devices: power supplies and what hangs on the universal serial bus.

pub mod power_supply;
pub mod usb;
