//! Shared text handling: characters, lines, fields and numbers.

pub mod attribute;
pub mod classify;
pub mod list;
pub mod number;
pub mod table;
pub mod text;
pub mod unit;
