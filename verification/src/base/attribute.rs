//! Attribute blocks.
//!
//! An attribute block is text with one `KEY=value` fact per line. A block may
//! require a prefix before each key, a tag such as `E:`. A line without the
//! prefix or without an equals sign states no fact and is passed over.

use vstd::prelude::*;
use crate::base::list::{lemma_views_push, views};
use crate::error::Diagnostic;
use crate::base::text::{
    find,
    index_of,
    lines,
    slice,
    spec_lines,
    spec_starts_with,
    spec_trim,
    starts_with,
    to_chars,
    to_string,
    trim,
};

verus! {

/// One fact of an attribute block.
#[derive(Debug, Clone, PartialEq, Eq)]
pub struct Attribute {
    /// What stands between the prefix and the first equals sign, as it is.
    pub key: String,
    /// What follows the first equals sign, without surrounding whitespace.
    pub value: String,
}

impl View for Attribute {
    type V = (Seq<char>, Seq<char>);

    open spec fn view(&self) -> (Seq<char>, Seq<char>) {
        (self.key@, self.value@)
    }
}

/// The fact that `line` states, as key and value: the line begins with
/// `prefix` and an equals sign follows somewhere; the key is what stands
/// between the two, the value what follows the first equals sign, trimmed.
pub open spec fn spec_attribute(prefix: Seq<char>, line: Seq<char>) -> Option<
    (Seq<char>, Seq<char>),
> {
    if spec_starts_with(line, prefix) {
        let rest = line.skip(prefix.len() as int);
        let k = index_of(rest, '=', 0);
        if k < rest.len() {
            Some((rest.take(k), spec_trim(rest.skip(k + 1))))
        } else {
            None
        }
    } else {
        None
    }
}

/// The prefix that a block requires, as characters: none is the empty prefix.
pub open spec fn prefix_of(key_prefix: Option<&str>) -> Seq<char> {
    match key_prefix {
        Some(p) => p@,
        None => Seq::empty(),
    }
}

/// The facts that the lines state, in the order of the lines.
pub open spec fn spec_attributes(prefix: Seq<char>, lines: Seq<Seq<char>>) -> Seq<
    (Seq<char>, Seq<char>),
> {
    lines.filter_map(|l: Seq<char>| spec_attribute(prefix, l))
}

/// The facts that the block `text` states, in the order of its lines.
pub open spec fn spec_parse_attributes(text: Seq<char>, prefix: Seq<char>) -> Seq<
    (Seq<char>, Seq<char>),
> {
    spec_attributes(prefix, spec_lines(text))
}

/// The facts among the first `i + 1` lines are those among the first `i`, and
/// then that of line `i` if it states one.
pub proof fn lemma_attributes_step(prefix: Seq<char>, lines: Seq<Seq<char>>, i: int)
    requires
        0 <= i < lines.len(),
    ensures
        spec_attributes(prefix, lines.take(i + 1)) == match spec_attribute(prefix, lines[i]) {
            Some(a) => spec_attributes(prefix, lines.take(i)).push(a),
            None => spec_attributes(prefix, lines.take(i)),
        },
{
    let longer = lines.take(i + 1);
    assert(longer.drop_last() =~= lines.take(i));
    assert(longer.last() == lines[i]);
    let before = spec_attributes(prefix, lines.take(i));
    if let Some(a) = spec_attribute(prefix, lines[i]) {
        assert(before + seq![a] =~= before.push(a));
    }
}

/// The fact that `line` states, if it states one.
pub fn attribute(line: &Vec<char>, prefix: &Vec<char>) -> (a: Option<Attribute>)
    ensures
        match a {
            Some(found) => spec_attribute(prefix@, line@) == Some(found@),
            None => spec_attribute(prefix@, line@) is None,
        },
{
    if !starts_with(line, prefix) {
        return None;
    }
    let rest = slice(line, prefix.len(), line.len());
    assert(rest@ =~= line@.skip(prefix@.len() as int));
    let k = find(&rest, '=');
    if k >= rest.len() {
        return None;
    }
    let key = slice(&rest, 0, k);
    let tail = slice(&rest, k + 1, rest.len());
    assert(key@ =~= rest@.take(k as int));
    assert(tail@ =~= rest@.skip(k + 1));
    let value = trim(&tail);
    Some(Attribute { key: to_string(&key), value: to_string(&value) })
}

/// Reads the attribute block `text` and returns the facts it states, in the
/// order of its lines. With a `key_prefix`, only lines that begin with it state
/// a fact, and the key is what follows it. Lines that state no fact are passed
/// over.
pub fn parse_attributes(text: &str, key_prefix: Option<&str>) -> (attributes: Vec<Attribute>)
    ensures
        views(attributes@) == spec_parse_attributes(text@, prefix_of(key_prefix)),
{
    let chars = to_chars(text);
    let prefix = match key_prefix {
        Some(p) => to_chars(p),
        None => Vec::new(),
    };
    let all = lines(&chars);
    let mut attributes: Vec<Attribute> = Vec::new();
    let mut i: usize = 0;
    proof {
        assert(views(all@).take(0) =~= Seq::<Seq<char>>::empty());
        assert(views(attributes@) =~= spec_attributes(prefix@, views(all@).take(0)));
    }
    while i < all.len()
        invariant
            i <= all.len(),
            views(all@) == spec_lines(text@),
            prefix@ == prefix_of(key_prefix),
            views(attributes@) == spec_attributes(prefix@, views(all@).take(i as int)),
        decreases all.len() - i,
    {
        proof {
            assert(views(all@)[i as int] == all@[i as int]@);
            lemma_attributes_step(prefix@, views(all@), i as int);
        }
        match attribute(&all[i], &prefix) {
            Some(a) => {
                proof {
                    lemma_views_push(attributes@, a);
                }
                attributes.push(a);
            },
            None => {},
        }
        i += 1;
    }
    proof {
        assert(views(all@).take(all.len() as int) =~= views(all@));
    }
    attributes
}

/// The keys that a record knows, for the notices about a block.
pub trait KeyTable {
    /// The name under which the block is reported.
    spec fn spec_source() -> &'static str;

    /// The name under which the block is reported.
    fn source() -> (name: &'static str)
        ensures
            name == Self::spec_source(),
    ;

    /// The notice that the fact `key=value` on line `line` is worth: one for a
    /// key that the record does not know, one for a value that names no
    /// variant of the enumeration that the key sets, none otherwise.
    spec fn spec_notice(key: Seq<char>, value: Seq<char>, line: usize) -> Option<Diagnostic>;

    /// The notice that the fact `key=value` on line `line` is worth.
    fn notice(key: &str, value: &str, line: usize) -> (n: Option<Diagnostic>)
        ensures
            n == Self::spec_notice(key@, value@, line),
    ;
}

/// The notice that a line is worth: one for a line that states no fact, else
/// that of its fact.
pub open spec fn spec_line_notice<K: KeyTable>(
    prefix: Seq<char>,
    line: Seq<char>,
    index: usize,
) -> Option<Diagnostic> {
    match spec_attribute(prefix, line) {
        Some(fact) => K::spec_notice(fact.0, fact.1, index),
        None => Some(Diagnostic::SkippedLine(K::spec_source(), index)),
    }
}

/// The notices that the lines are worth, in the order of the lines.
pub open spec fn spec_lines_diagnostics<K: KeyTable>(
    prefix: Seq<char>,
    lines: Seq<Seq<char>>,
) -> Seq<Diagnostic>
    decreases lines.len(),
{
    if lines.len() == 0 {
        Seq::empty()
    } else {
        let before = spec_lines_diagnostics::<K>(prefix, lines.drop_last());
        match spec_line_notice::<K>(prefix, lines.last(), (lines.len() - 1) as usize) {
            Some(d) => before.push(d),
            None => before,
        }
    }
}

/// The notices that the block `text` is worth, in the order of its lines.
pub open spec fn spec_block_diagnostics<K: KeyTable>(
    text: Seq<char>,
    prefix: Seq<char>,
) -> Seq<Diagnostic> {
    spec_lines_diagnostics::<K>(prefix, spec_lines(text))
}

/// Lists what reading the block `text` passes over: each line that states no
/// fact, each fact with a key that the record `K` does not know, and each fact
/// that gives an enumeration a value that names no variant. The notices stand
/// in the order of the lines and name the line by its index.
pub fn block_diagnostics<K: KeyTable>(text: &str, key_prefix: Option<&str>) -> (notices: Vec<
    Diagnostic,
>)
    ensures
        notices@ == spec_block_diagnostics::<K>(text@, prefix_of(key_prefix)),
{
    let chars = to_chars(text);
    let prefix = match key_prefix {
        Some(p) => to_chars(p),
        None => Vec::new(),
    };
    let all = lines(&chars);
    let mut notices: Vec<Diagnostic> = Vec::new();
    let mut i: usize = 0;
    proof {
        assert(views(all@).take(0) =~= Seq::<Seq<char>>::empty());
    }
    while i < all.len()
        invariant
            i <= all.len(),
            views(all@) == spec_lines(text@),
            prefix@ == prefix_of(key_prefix),
            notices@ == spec_lines_diagnostics::<K>(prefix@, views(all@).take(i as int)),
        decreases all.len() - i,
    {
        proof {
            assert(views(all@)[i as int] == all@[i as int]@);
            assert(views(all@).take(i + 1).drop_last() =~= views(all@).take(i as int));
            assert(views(all@).take(i + 1).last() == all@[i as int]@);
        }
        let found = match attribute(&all[i], &prefix) {
            Some(fact) => K::notice(fact.key.as_str(), fact.value.as_str(), i),
            None => Some(Diagnostic::SkippedLine(K::source(), i)),
        };
        match found {
            Some(d) => {
                notices.push(d);
            },
            None => {},
        }
        i += 1;
    }
    proof {
        assert(views(all@).take(all.len() as int) =~= views(all@));
    }
    notices
}

} // verus!
