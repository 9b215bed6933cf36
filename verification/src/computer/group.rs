//! User groups.

use vstd::prelude::*;

verus! {

/// One group of users.
#[derive(Debug, Clone, PartialEq, Eq)]
pub struct Group {
    pub name: String,
    pub gid: i32,
    pub members: Vec<String>,
}

} // verus!
