//! Delimited tables.
//!
//! A table is text with one row per line. Every row has the same number of
//! fields, parted by tabs or by runs of whitespace. Blank lines are passed over.
//! A table may begin with a header, told by a sentinel in its first field; it
//! must have as many fields as the rows and is then dropped. A table whose
//! header or rows have another number of fields is refused as a whole.

use vstd::prelude::*;
use crate::base::list::{
    lemma_try_map_fails,
    lemma_try_map_ok,
    lemma_try_map_step,
    lemma_views_push,
    lemma_views_take,
    outcome,
    try_map,
    views,
};
use crate::error::Error;
use crate::base::text::{
    blank,
    find,
    has_char,
    is_blank,
    is_word,
    lines,
    spec_lines,
    spec_split,
    spec_tokens,
    split,
    to_chars,
    to_strings,
    tokens,
};

verus! {

/// What parts the fields of a row.
#[derive(Debug, Clone, Copy, PartialEq, Eq, Structural)]
pub enum Delimiter {
    /// Each tab parts two fields; a field may be empty.
    Tab,
    /// Each run of ASCII whitespace parts two fields; no field is empty.
    Whitespace,
}

/// How the lines that are no rows are told from the rows.
#[derive(Debug, Clone, Copy, PartialEq, Eq)]
pub enum Header {
    /// Every line that is not blank is a row.
    Absent,
    /// A line whose first field is this word is a header. Its number of fields is
    /// checked as that of a row is.
    Sentinel(&'static str),
    /// A line that holds this character is decoration and is passed over
    /// unchecked.
    Decoration(char),
}

/// The shape of a table.
#[derive(Debug, Clone, Copy, PartialEq, Eq)]
pub struct Schema {
    pub delimiter: Delimiter,
    /// The number of fields of a row.
    pub columns: usize,
    /// Whether a row may have further fields after these, which are dropped.
    pub open_ended: bool,
    pub header: Header,
}

/// A line of a table has the wrong number of fields.
#[derive(Debug, Clone, Copy, PartialEq, Eq, Structural)]
pub struct Mismatch {
    /// The index of the first such line, counted from zero.
    pub line: usize,
}

/// The fields of `line`.
pub open spec fn spec_fields(delimiter: Delimiter, line: Seq<char>) -> Seq<Seq<char>> {
    match delimiter {
        Delimiter::Tab => spec_split(line, '\t'),
        Delimiter::Whitespace => spec_tokens(line),
    }
}

/// Whether `line` is passed over unread: it is blank, or it is decoration.
pub open spec fn is_skipped(header: Header, line: Seq<char>) -> bool {
    is_blank(line) || (header matches Header::Decoration(c) && has_char(line, c))
}

/// Whether `line` is a header: its first field is the sentinel.
pub open spec fn is_header(schema: Schema, line: Seq<char>) -> bool {
    schema.header matches Header::Sentinel(word) && {
        let fields = spec_fields(schema.delimiter, line);
        fields.len() > 0 && fields[0] == word@
    }
}

/// Whether a line with `n` fields fits the schema.
pub open spec fn arity_ok(schema: Schema, n: nat) -> bool {
    if schema.open_ended {
        n >= schema.columns
    } else {
        n == schema.columns
    }
}

/// Whether `line` may stand in the table: it is passed over, or it is a header
/// or a row with the right number of fields.
pub open spec fn line_ok(schema: Schema, line: Seq<char>) -> bool {
    is_skipped(schema.header, line) || arity_ok(
        schema,
        spec_fields(schema.delimiter, line).len(),
    )
}

/// Whether `line` is a row: neither passed over nor a header.
pub open spec fn is_data(schema: Schema, line: Seq<char>) -> bool {
    !is_skipped(schema.header, line) && !is_header(schema, line)
}

/// The row that `line` holds: its fields, as many as the schema has columns.
pub open spec fn row_of(schema: Schema, line: Seq<char>) -> Seq<Seq<char>> {
    spec_fields(schema.delimiter, line).take(schema.columns as int)
}

/// The rows among `lines`, in the order of the lines.
pub open spec fn data_rows(schema: Schema, lines: Seq<Seq<char>>) -> Seq<Seq<Seq<char>>> {
    lines.filter(|l: Seq<char>| is_data(schema, l)).map_values(|l: Seq<char>| row_of(schema, l))
}

/// Whether every line may stand in the table.
pub open spec fn well_formed(schema: Schema, lines: Seq<Seq<char>>) -> bool {
    forall|i: int| 0 <= i < lines.len() ==> line_ok(schema, #[trigger] lines[i])
}

/// The index of the first line at or after `i` that may not stand in the table.
pub open spec fn first_bad(schema: Schema, lines: Seq<Seq<char>>, i: int) -> Option<int>
    decreases lines.len() - i,
{
    if i < 0 || i >= lines.len() {
        None
    } else if !line_ok(schema, lines[i]) {
        Some(i)
    } else {
        first_bad(schema, lines, i + 1)
    }
}

/// The rows of the table that `text` holds, or the first line that has the
/// wrong number of fields.
pub open spec fn spec_parse_table(schema: Schema, text: Seq<char>) -> Result<
    Seq<Seq<Seq<char>>>,
    Mismatch,
> {
    let lines = spec_lines(text);
    match first_bad(schema, lines, 0) {
        Some(k) => Err(Mismatch { line: k as usize }),
        None => Ok(data_rows(schema, lines)),
    }
}

/// The fields of each row, as sequences of characters.
pub open spec fn grid(rows: Seq<Vec<String>>) -> Seq<Seq<Seq<char>>> {
    rows.map_values(|r: Vec<String>| views(r@))
}

/// What `first_bad` finds is the first line that may not stand in the table,
/// and it finds nothing only where every line from `i` on may.
pub proof fn lemma_first_bad(schema: Schema, lines: Seq<Seq<char>>, i: int)
    requires
        0 <= i <= lines.len(),
    ensures
        match first_bad(schema, lines, i) {
            Some(k) => {
                &&& i <= k < lines.len()
                &&& !line_ok(schema, lines[k])
                &&& forall|j: int| i <= j < k ==> line_ok(schema, #[trigger] lines[j])
            },
            None => forall|j: int| i <= j < lines.len() ==> line_ok(schema, #[trigger] lines[j]),
        },
    decreases lines.len() - i,
{
    if i < lines.len() && line_ok(schema, lines[i]) {
        lemma_first_bad(schema, lines, i + 1);
    }
}

/// A table is read if and only if all its lines may stand in it, and then its
/// rows are exactly the lines that are rows, in their order, each with its
/// fields.
pub proof fn lemma_well_formed_table(schema: Schema, text: Seq<char>)
    ensures
        well_formed(schema, spec_lines(text)) <==> spec_parse_table(schema, text) is Ok,
        well_formed(schema, spec_lines(text)) ==> spec_parse_table(schema, text) == Ok::<
            Seq<Seq<Seq<char>>>,
            Mismatch,
        >(data_rows(schema, spec_lines(text))),
        data_rows(schema, spec_lines(text)).len() == spec_lines(text).filter(
            |l: Seq<char>| is_data(schema, l),
        ).len(),
{
    lemma_first_bad(schema, spec_lines(text), 0);
}

/// A header with the wrong number of fields spoils the table, whatever its
/// rows hold.
pub proof fn lemma_bad_header(schema: Schema, text: Seq<char>, i: int)
    requires
        0 <= i < spec_lines(text).len(),
        !is_blank(spec_lines(text)[i]),
        is_header(schema, spec_lines(text)[i]),
        !arity_ok(schema, spec_fields(schema.delimiter, spec_lines(text)[i]).len()),
    ensures
        spec_parse_table(schema, text) matches Err(e) && e.line <= i,
{
    lemma_first_bad(schema, spec_lines(text), 0);
}

/// The rows among the first `i + 1` lines are those among the first `i`, and
/// then that of line `i` if it is a row.
pub proof fn lemma_data_rows_step(schema: Schema, lines: Seq<Seq<char>>, i: int)
    requires
        0 <= i < lines.len(),
    ensures
        data_rows(schema, lines.take(i + 1)) == if is_data(schema, lines[i]) {
            data_rows(schema, lines.take(i)).push(row_of(schema, lines[i]))
        } else {
            data_rows(schema, lines.take(i))
        },
{
    reveal(Seq::filter);
    let longer = lines.take(i + 1);
    assert(longer.drop_last() =~= lines.take(i));
    assert(longer.last() == lines[i]);
    let pred = |l: Seq<char>| is_data(schema, l);
    if is_data(schema, lines[i]) {
        assert(longer.filter(pred) == lines.take(i).filter(pred).push(lines[i]));
        assert(data_rows(schema, longer) =~= data_rows(schema, lines.take(i)).push(
            row_of(schema, lines[i]),
        ));
    } else {
        assert(longer.filter(pred) == lines.take(i).filter(pred));
    }
}

/// The fields of `line`.
pub fn fields(line: &Vec<char>, delimiter: Delimiter) -> (out: Vec<Vec<char>>)
    ensures
        views(out@) == spec_fields(delimiter, line@),
{
    match delimiter {
        Delimiter::Tab => split(line, '\t'),
        Delimiter::Whitespace => tokens(line),
    }
}

/// Whether `line` is passed over unread.
fn skipped(line: &Vec<char>, header: Header) -> (b: bool)
    ensures
        b == is_skipped(header, line@),
{
    if blank(line) {
        return true;
    }
    match header {
        Header::Decoration(c) => find(line, c) < line.len(),
        _ => false,
    }
}

/// Whether the line with these fields is a header.
fn heads(fields: &Vec<Vec<char>>, header: Header) -> (b: bool)
    ensures
        b == (header matches Header::Sentinel(word) && fields@.len() > 0 && fields@[0]@ == word@),
{
    match header {
        Header::Sentinel(word) => fields.len() > 0 && is_word(&fields[0], word),
        _ => false,
    }
}

/// Reads the table that `text` holds and returns its rows, in the order of the
/// lines, each with exactly `schema.columns` fields.
///
/// Fails, with the index of the first offending line, if and only if some
/// line that is not passed over has the wrong number of fields, be it a header
/// or a row.
pub fn parse_table(text: &str, schema: &Schema) -> (r: Result<Vec<Vec<String>>, Mismatch>)
    ensures
        match r {
            Ok(rows) => spec_parse_table(*schema, text@) == Ok::<Seq<Seq<Seq<char>>>, Mismatch>(
                grid(rows@),
            ),
            Err(e) => spec_parse_table(*schema, text@) == Err::<Seq<Seq<Seq<char>>>, Mismatch>(e),
        },
        r matches Ok(rows) ==> forall|i: int|
            0 <= i < rows@.len() ==> (#[trigger] rows@[i])@.len() == schema.columns,
{
    let chars = to_chars(text);
    let all = lines(&chars);
    let mut rows: Vec<Vec<String>> = Vec::new();
    let mut i: usize = 0;
    proof {
        reveal(Seq::filter);
        assert(views(all@).take(0) =~= Seq::<Seq<char>>::empty());
        assert(grid(rows@) =~= data_rows(*schema, views(all@).take(0)));
    }
    while i < all.len()
        invariant
            i <= all.len(),
            views(all@) == spec_lines(text@),
            first_bad(*schema, views(all@), 0) == first_bad(*schema, views(all@), i as int),
            grid(rows@) == data_rows(*schema, views(all@).take(i as int)),
            forall|j: int| 0 <= j < rows@.len() ==> (#[trigger] rows@[j])@.len() == schema.columns,
        decreases all.len() - i,
    {
        let line = &all[i];
        proof {
            assert(views(all@)[i as int] == line@);
            lemma_data_rows_step(*schema, views(all@), i as int);
        }
        if !skipped(line, schema.header) {
            let mut f = fields(line, schema.delimiter);
            if f.len() < schema.columns || (f.len() > schema.columns && !schema.open_ended) {
                return Err(Mismatch { line: i });
            }
            if !heads(&f, schema.header) {
                proof {
                    assert(views(f@)[0] == f@[0]@ || f@.len() == 0);
                    lemma_views_take(f@, schema.columns as int);
                }
                f.truncate(schema.columns);
                let row = to_strings(&f);
                proof {
                    assert(views(row@).len() == row@.len());
                    assert(views(f@).len() == f@.len());
                    assert(grid(rows@.push(row)) =~= grid(rows@).push(views(row@)));
                }
                rows.push(row);
            } else {
                assert(views(f@)[0] == f@[0]@);
            }
        }
        i += 1;
    }
    proof {
        assert(views(all@).take(all.len() as int) =~= views(all@));
    }
    Ok(rows)
}

/// A record that one row of a table describes.
pub trait Record: View + Sized {
    /// The shape of the table that lists such records.
    spec fn spec_schema() -> Schema;

    /// The shape of the table that lists such records.
    fn schema() -> (s: Schema)
        ensures
            s == Self::spec_schema(),
    ;

    /// The failure of a table that does not have this shape.
    spec fn spec_mismatch() -> Error;

    /// The failure of a table that does not have this shape.
    fn mismatch() -> (e: Error)
        ensures
            e == Self::spec_mismatch(),
    ;

    /// The record that `row` describes, field by field, or the failure of the
    /// first field that cannot be read.
    spec fn spec_from_row(row: Seq<Seq<char>>) -> Result<Self::V, Error>;

    /// The record that `row` describes, field by field, or the failure of the
    /// first field that cannot be read.
    fn from_row(row: &Vec<String>) -> (r: Result<Self, Error>)
        requires
            row@.len() == Self::spec_schema().columns,
        ensures
            match r {
                Ok(record) => Self::spec_from_row(views(row@)) == Ok::<Self::V, Error>(record@),
                Err(e) => Self::spec_from_row(views(row@)) == Err::<Self::V, Error>(e),
            },
    ;
}

/// The records that the table `text` lists, in the order of its rows. A table
/// that does not have the records' shape fails as a whole, before any field is
/// read; else the first field that cannot be read fails it.
pub open spec fn spec_read_records<R: Record>(text: Seq<char>) -> Result<Seq<R::V>, Error> {
    match spec_parse_table(R::spec_schema(), text) {
        Ok(rows) => try_map(rows, |row: Seq<Seq<char>>| R::spec_from_row(row)),
        Err(_) => Err(R::spec_mismatch()),
    }
}

/// Reads the table `text` into records, one per row, in the order of the rows.
///
/// Fails with the records' mismatch if the header or any row has the wrong
/// number of fields; else with the failure of the first row, and in it the
/// first field, that cannot be read.
pub fn read_records<R: Record>(text: &str) -> (r: Result<Vec<R>, Error>)
    ensures
        outcome(r) == spec_read_records::<R>(text@),
{
    let schema = R::schema();
    let rows = match parse_table(text, &schema) {
        Ok(rows) => rows,
        Err(_) => {
            return Err(R::mismatch());
        },
    };
    let ghost f = |row: Seq<Seq<char>>| R::spec_from_row(row);
    let mut list: Vec<R> = Vec::new();
    let mut i: usize = 0;
    proof {
        assert(grid(rows@).take(0) =~= Seq::<Seq<Seq<char>>>::empty());
        assert(views(list@) =~= Seq::<R::V>::empty());
    }
    while i < rows.len()
        invariant
            i <= rows.len(),
            forall|j: int|
                0 <= j < rows@.len() ==> (#[trigger] rows@[j])@.len() == R::spec_schema().columns,
            f == |row: Seq<Seq<char>>| R::spec_from_row(row),
            spec_parse_table(R::spec_schema(), text@) == Ok::<Seq<Seq<Seq<char>>>, Mismatch>(
                grid(rows@),
            ),
            try_map(grid(rows@).take(i as int), f) == Ok::<Seq<R::V>, Error>(views(list@)),
        decreases rows.len() - i,
    {
        proof {
            lemma_try_map_step(grid(rows@), f, i as int);
            assert(grid(rows@)[i as int] == views(rows@[i as int]@));
        }
        match R::from_row(&rows[i]) {
            Ok(record) => {
                proof {
                    lemma_views_push(list@, record);
                }
                list.push(record);
            },
            Err(e) => {
                proof {
                    lemma_try_map_fails(grid(rows@), f, i + 1);
                }
                return Err(e);
            },
        }
        i += 1;
    }
    proof {
        assert(grid(rows@).take(rows.len() as int) =~= grid(rows@));
    }
    Ok(list)
}

/// Reading is a function of the text alone: two readings of one text, each as
/// `read_records` gives it, come to the same, record by record and field by
/// field, or to the same failure.
pub proof fn lemma_read_records_twice<R: Record>(
    text: Seq<char>,
    first: Result<Vec<R>, Error>,
    second: Result<Vec<R>, Error>,
)
    requires
        outcome(first) == spec_read_records::<R>(text),
        outcome(second) == spec_read_records::<R>(text),
    ensures
        outcome(first) == outcome(second),
        first is Ok ==> second is Ok && views(first->Ok_0@) == views(second->Ok_0@),
        first is Err ==> second is Err && first->Err_0 == second->Err_0,
{
}

/// A table in which every line may stand and every row can be read gives
/// exactly one record per row, in the order of the rows in the text, each
/// read from its own row field by field.
pub proof fn lemma_valid_table_reads<R: Record>(text: Seq<char>)
    requires
        well_formed(R::spec_schema(), spec_lines(text)),
        forall|i: int|
            0 <= i < data_rows(R::spec_schema(), spec_lines(text)).len() ==> R::spec_from_row(
                #[trigger] data_rows(R::spec_schema(), spec_lines(text))[i],
            ) is Ok,
    ensures
        spec_read_records::<R>(text) matches Ok(list) && {
            let rows = data_rows(R::spec_schema(), spec_lines(text));
            &&& list.len() == rows.len()
            &&& rows.len() == spec_lines(text).filter(
                |l: Seq<char>| is_data(R::spec_schema(), l),
            ).len()
            &&& forall|i: int|
                0 <= i < rows.len() ==> R::spec_from_row(#[trigger] rows[i]) == Ok::<R::V, Error>(
                    list[i],
                )
        },
{
    lemma_well_formed_table(R::spec_schema(), text);
    lemma_try_map_ok(
        data_rows(R::spec_schema(), spec_lines(text)),
        |row: Seq<Seq<char>>| R::spec_from_row(row),
    );
}

/// A header with the wrong number of fields fails the table with the records'
/// mismatch, whatever the rows hold: no row is read.
pub proof fn lemma_bad_header_fails<R: Record>(text: Seq<char>, i: int)
    requires
        0 <= i < spec_lines(text).len(),
        !is_blank(spec_lines(text)[i]),
        is_header(R::spec_schema(), spec_lines(text)[i]),
        !arity_ok(
            R::spec_schema(),
            spec_fields(R::spec_schema().delimiter, spec_lines(text)[i]).len(),
        ),
    ensures
        spec_read_records::<R>(text) == Err::<Seq<R::V>, Error>(R::spec_mismatch()),
{
    lemma_bad_header(R::spec_schema(), text, i);
}

} // verus!
