//! The machine itself: kernel modules, vendors, users and sessions.

pub mod bootup;
pub mod group;
pub mod language;
pub mod module;
pub mod vendor;
