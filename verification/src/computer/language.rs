//! Locales.

use vstd::prelude::*;

verus! {

/// One locale and what its definition says of itself.
#[derive(Debug, Clone, PartialEq, Eq)]
pub struct Language {
    pub locale: String,
    pub title: String,
    pub source: String,
    pub address: String,
    pub email: String,
    pub language: String,
    pub territory: String,
    pub revision: String,
    pub date: String,
    pub code_set: String,
}

} // verus!
