//! Point-in-time host inventory: typed records parsed from the text tables and
//! attribute blocks that the operating system exposes, with first-match
//! classification of vendors and network device kinds.
//!
//! The library works on text that the caller has already read; it never touches
//! the filesystem or the network itself.

pub mod base;
pub mod computer;
pub mod device;
pub mod error;
pub mod network;
