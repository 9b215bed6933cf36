//! Sessions since the machine was started.

use vstd::prelude::*;

verus! {

/// One session, as the login records tell it.
#[derive(Debug, Default, Clone, PartialEq, Eq)]
pub struct Bootup {
    pub username: String,
    pub session_tty: String,
    pub kernel: String,
    pub start_time: String,
    pub end_time: String,
}

} // verus!
