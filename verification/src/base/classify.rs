//! First-match lookup in ordered classification tables.
//!
//! A table is a list of entries, each with a matcher string. Looking a text up
//! returns the first entry whose matcher the text satisfies: the order of the
//! table alone decides between overlapping matchers.

use vstd::prelude::*;
use crate::base::text::{contains, spec_contains, spec_starts_with, starts_with, to_chars};

verus! {

/// How a matcher is held against the text that is looked up.
#[derive(Debug, Clone, Copy, PartialEq, Eq, Structural)]
pub enum Rule {
    /// The matcher stands somewhere in the text.
    Substring,
    /// The text begins with the matcher.
    Prefix,
}

/// An entry of a classification table.
pub trait Entry {
    /// The matcher of this entry.
    spec fn matcher(&self) -> Seq<char>;

    /// The matcher of this entry.
    fn matcher_str(&self) -> (m: &str)
        ensures
            m@ == self.matcher(),
    ;
}

/// Whether `text` satisfies `matcher` under `rule`.
pub open spec fn matches(rule: Rule, matcher: Seq<char>, text: Seq<char>) -> bool {
    match rule {
        Rule::Substring => spec_contains(text, matcher),
        Rule::Prefix => spec_starts_with(text, matcher),
    }
}

/// The index of the first entry at or after `i` that `text` satisfies.
pub open spec fn first_match<E: Entry>(table: Seq<E>, text: Seq<char>, rule: Rule, i: int) -> Option<
    int,
>
    decreases table.len() - i,
{
    if i < 0 || i >= table.len() {
        None
    } else if matches(rule, table[i].matcher(), text) {
        Some(i)
    } else {
        first_match(table, text, rule, i + 1)
    }
}

/// The first entry of `table` that `text` satisfies, if any.
pub open spec fn spec_lookup<E: Entry>(table: Seq<E>, text: Seq<char>, rule: Rule) -> Option<E> {
    match first_match(table, text, rule, 0) {
        Some(i) => Some(table[i]),
        None => None,
    }
}

/// First match wins: the index found is that of an entry that `text`
/// satisfies, no entry between `i` and it is satisfied, and nothing is found
/// only where no entry from `i` on is satisfied.
pub proof fn lemma_first_match<E: Entry>(table: Seq<E>, text: Seq<char>, rule: Rule, i: int)
    requires
        0 <= i <= table.len(),
    ensures
        match first_match(table, text, rule, i) {
            Some(k) => {
                &&& i <= k < table.len()
                &&& matches(rule, table[k].matcher(), text)
                &&& forall|j: int| i <= j < k ==> !matches(rule, #[trigger] table[j].matcher(), text)
            },
            None => forall|j: int|
                i <= j < table.len() ==> !matches(rule, #[trigger] table[j].matcher(), text),
        },
    decreases table.len() - i,
{
    if i < table.len() && !matches(rule, table[i].matcher(), text) {
        lemma_first_match(table, text, rule, i + 1);
    }
}

/// Order decides, not specificity: where the entries at `i` and `j` are both
/// satisfied and `i` comes first, the lookup does not return the entry at `j`
/// unless an equal one stands at or before `i`; it returns the entry at the
/// first satisfied index, which is at most `i`.
pub proof fn lemma_earlier_entry_wins<E: Entry>(
    table: Seq<E>,
    text: Seq<char>,
    rule: Rule,
    i: int,
    j: int,
)
    requires
        0 <= i < j < table.len(),
        matches(rule, table[i].matcher(), text),
        matches(rule, table[j].matcher(), text),
    ensures
        first_match(table, text, rule, 0) matches Some(k) && k <= i && spec_lookup(
            table,
            text,
            rule,
        ) == Some(table[k]),
{
    lemma_first_match(table, text, rule, 0);
}

/// Looks `text` up in `table` and returns the first entry that it satisfies
/// under `rule`, or `None` if it satisfies none.
pub fn lookup<'a, E: Entry>(table: &'a Vec<E>, text: &str, rule: Rule) -> (found: Option<&'a E>)
    ensures
        match found {
            Some(e) => spec_lookup(table@, text@, rule) == Some(*e),
            None => spec_lookup(table@, text@, rule) is None,
        },
{
    let hay = to_chars(text);
    let mut i: usize = 0;
    while i < table.len()
        invariant
            i <= table.len(),
            hay@ == text@,
            first_match(table@, text@, rule, 0) == first_match(table@, text@, rule, i as int),
        decreases table.len() - i,
    {
        let needle = to_chars(table[i].matcher_str());
        let hit = match rule {
            Rule::Substring => contains(&hay, &needle),
            Rule::Prefix => starts_with(&hay, &needle),
        };
        if hit {
            return Some(&table[i]);
        }
        i += 1;
    }
    None
}

} // verus!
