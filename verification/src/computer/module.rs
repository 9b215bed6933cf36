//! Kernel modules.

use vstd::prelude::*;
use crate::base::number::{parse_i32, parse_usize, spec_parse_i32, spec_parse_usize};
use crate::base::table::{read_records, spec_read_records, Delimiter, Header, Record, Schema};
use crate::base::list::{lemma_filter_step, lemma_views_push, outcome, views};
use crate::base::text::{spec_split, split, str_eq, to_chars, to_string};
use crate::error::Error;

verus! {

/// Where the system keeps the table of loaded modules.
pub const FILE: &'static str = "/proc/modules";

/// What is wrong with a table in which a row has fewer than four fields.
pub const MISMATCH: &'static str = "Failed to parse modules file, expect at least 4 parts";

/// What is wrong with a row whose size is no number.
pub const BAD_MEMORY: &'static str = "Failed to parse memory bytes as integer";

/// What is wrong with a row whose use count is no number.
pub const BAD_COUNT: &'static str = "Failed to parse count as integer";

/// A loaded kernel module.
#[derive(Debug, Clone, PartialEq, Eq)]
pub struct Module {
    pub name: String,
    pub memory_bytes: usize,
    pub dependencies: Vec<String>,
}

/// A kernel module with what its object file says of it.
#[derive(Debug, Clone, PartialEq, Eq)]
pub struct ModuleDetail {
    pub name: String,
    pub description: String,
    pub version_magic: String,
    pub path: String,
    pub memory_bytes: usize,
    pub dependencies: Vec<String>,
    pub author: String,
    pub license: String,
    pub signer: String,
    pub sig_key: String,
}

/// A loaded kernel module, with its text as sequences of characters.
pub struct ModuleView {
    pub name: Seq<char>,
    pub memory_bytes: usize,
    pub dependencies: Seq<Seq<char>>,
}

/// A kernel module in detail, with its text as sequences of characters.
pub struct ModuleDetailView {
    pub name: Seq<char>,
    pub description: Seq<char>,
    pub version_magic: Seq<char>,
    pub path: Seq<char>,
    pub memory_bytes: usize,
    pub dependencies: Seq<Seq<char>>,
    pub author: Seq<char>,
    pub license: Seq<char>,
    pub signer: Seq<char>,
    pub sig_key: Seq<char>,
}

impl View for Module {
    type V = ModuleView;

    open spec fn view(&self) -> ModuleView {
        ModuleView {
            name: self.name@,
            memory_bytes: self.memory_bytes,
            dependencies: views(self.dependencies@),
        }
    }
}

impl View for ModuleDetail {
    type V = ModuleDetailView;

    open spec fn view(&self) -> ModuleDetailView {
        ModuleDetailView {
            name: self.name@,
            description: self.description@,
            version_magic: self.version_magic@,
            path: self.path@,
            memory_bytes: self.memory_bytes,
            dependencies: views(self.dependencies@),
            author: self.author@,
            license: self.license@,
            signer: self.signer@,
            sig_key: self.sig_key@,
        }
    }
}

/// The names that stand between the commas of `field`, without the empty
/// ones.
pub open spec fn spec_names(field: Seq<char>) -> Seq<Seq<char>> {
    spec_split(field, ',').filter(|name: Seq<char>| name.len() > 0)
}

/// The modules that the dependency field names: the names between its commas,
/// where a lone `-` stands for none.
pub open spec fn spec_dependencies(field: Seq<char>) -> Seq<Seq<char>> {
    let names = spec_names(field);
    if names.len() == 1 && names[0] == "-"@ {
        Seq::empty()
    } else {
        names
    }
}

/// The modules that the dependency field names.
pub fn dependencies(field: &str) -> (names: Vec<String>)
    ensures
        views(names@) == spec_dependencies(field@),
{
    let mut names: Vec<String> = Vec::new();
    let chars = to_chars(field);
    let pieces = split(&chars, ',');
    let ghost keep = |name: Seq<char>| name.len() > 0;
    let mut i: usize = 0;
    proof {
        reveal(Seq::filter);
        assert(views(pieces@).take(0) =~= Seq::<Seq<char>>::empty());
        assert(views(names@) =~= views(pieces@).take(0).filter(keep));
    }
    while i < pieces.len()
        invariant
            i <= pieces.len(),
            keep == |name: Seq<char>| name.len() > 0,
            views(names@) == views(pieces@).take(i as int).filter(keep),
        decreases pieces.len() - i,
    {
        proof {
            lemma_filter_step(views(pieces@), keep, i as int);
            assert(views(pieces@)[i as int] == pieces@[i as int]@);
        }
        if pieces[i].len() > 0 {
            let name = to_string(&pieces[i]);
            proof {
                lemma_views_push(names@, name);
            }
            names.push(name);
        }
        i += 1;
    }
    proof {
        assert(views(pieces@).take(pieces.len() as int) =~= views(pieces@));
    }
    if names.len() == 1 && str_eq(names[0].as_str(), "-") {
        assert(views(names@)[0] == names@[0]@);
        let none: Vec<String> = Vec::new();
        assert(views(none@) =~= Seq::<Seq<char>>::empty());
        return none;
    }
    proof {
        if names@.len() == 1 {
            assert(views(names@)[0] == names@[0]@);
        }
    }
    names
}

impl Record for Module {
    /// Name, size, use count and dependencies, parted by whitespace; further
    /// fields may follow. There is no header.
    open spec fn spec_schema() -> Schema {
        Schema {
            delimiter: Delimiter::Whitespace,
            columns: 4,
            open_ended: true,
            header: Header::Absent,
        }
    }

    fn schema() -> (s: Schema) {
        Schema {
            delimiter: Delimiter::Whitespace,
            columns: 4,
            open_ended: true,
            header: Header::Absent,
        }
    }

    open spec fn spec_mismatch() -> Error {
        Error::ParseFile(FILE, MISMATCH)
    }

    fn mismatch() -> (e: Error) {
        Error::ParseFile(FILE, MISMATCH)
    }

    /// The size is a decimal `usize` and the use count a decimal `i32`; a row
    /// fails on the first of the two that is none. The use count is checked
    /// and not kept.
    open spec fn spec_from_row(row: Seq<Seq<char>>) -> Result<ModuleView, Error> {
        match spec_parse_usize(row[1]) {
            None => Err(Error::ParseFile(FILE, BAD_MEMORY)),
            Some(memory_bytes) => match spec_parse_i32(row[2]) {
                None => Err(Error::ParseFile(FILE, BAD_COUNT)),
                Some(_) => Ok(
                    ModuleView {
                        name: row[0],
                        memory_bytes,
                        dependencies: spec_dependencies(row[3]),
                    },
                ),
            },
        }
    }

    fn from_row(row: &Vec<String>) -> (r: Result<Self, Error>) {
        let memory_bytes = match parse_usize(row[1].as_str()) {
            Some(n) => n,
            None => {
                return Err(Error::ParseFile(FILE, BAD_MEMORY));
            },
        };
        if parse_i32(row[2].as_str()).is_none() {
            return Err(Error::ParseFile(FILE, BAD_COUNT));
        }
        Ok(
            Module {
                name: row[0].clone(),
                memory_bytes,
                dependencies: dependencies(row[3].as_str()),
            },
        )
    }
}

/// The modules that the table `content` lists, in its order; or the failure of
/// a table with a row of fewer than four fields; or that of the first size or
/// use count that holds no number.
pub open spec fn spec_get_list(content: Seq<char>) -> Result<Seq<ModuleView>, Error> {
    spec_read_records::<Module>(content)
}

/// Reads the table of loaded modules from `content`, the text of `FILE`.
///
/// Returns one record per row, in the order of the rows. Fails if a row has
/// fewer than four fields, and else if the size or the use count of some row is
/// no decimal number; the failure names the first such field of the first such
/// row.
pub fn get_list(content: &str) -> (r: Result<Vec<Module>, Error>)
    ensures
        outcome(r) == spec_get_list(content@),
{
    read_records::<Module>(content)
}

/// The index of the first module at or after `i` that is called `name`.
pub open spec fn spec_position(list: Seq<ModuleView>, name: Seq<char>, i: int) -> Option<int>
    decreases list.len() - i,
{
    if i < 0 || i >= list.len() {
        None
    } else if list[i].name == name {
        Some(i)
    } else {
        spec_position(list, name, i + 1)
    }
}

/// What the table says of a module, with everything else empty.
pub open spec fn spec_detail(module: ModuleView) -> ModuleDetailView {
    ModuleDetailView {
        name: module.name,
        description: Seq::empty(),
        version_magic: Seq::empty(),
        path: Seq::empty(),
        memory_bytes: module.memory_bytes,
        dependencies: module.dependencies,
        author: Seq::empty(),
        license: Seq::empty(),
        signer: Seq::empty(),
        sig_key: Seq::empty(),
    }
}

/// Looks the module `name` up in `content`, the text of `FILE`, and returns what
/// the table says of it: its name, its size and its dependencies. What only
/// the module's object file knows is left empty.
///
/// Fails as `get_list` does if the table cannot be read, and with `NotFound`
/// and the name if the table lists no module of that name. Of several rows with
/// that name the first counts.
pub fn get_detail(name: &str, content: &str) -> (r: Result<ModuleDetail, Error>)
    ensures
        match spec_get_list(content@) {
            Ok(list) => match spec_position(list, name@, 0) {
                Some(k) => r matches Ok(detail) && detail@ == spec_detail(list[k]),
                None => r matches Err(Error::NotFound(missing)) && missing@ == name@,
            },
            Err(e) => r == Err::<ModuleDetail, Error>(e),
        },
{
    let mut list = match read_records::<Module>(content) {
        Ok(list) => list,
        Err(e) => {
            return Err(e);
        },
    };
    let ghost all = views(list@);
    let mut i: usize = 0;
    while i < list.len()
        invariant
            i <= list.len(),
            all == views(list@),
            spec_get_list(content@) == Ok::<Seq<ModuleView>, Error>(all),
            spec_position(all, name@, 0) == spec_position(all, name@, i as int),
        decreases list.len() - i,
    {
        assert(all[i as int] == list@[i as int]@);
        if str_eq(list[i].name.as_str(), name) {
            let module = list.swap_remove(i);
            return Ok(
                ModuleDetail {
                    name: module.name,
                    description: String::new(),
                    version_magic: String::new(),
                    path: String::new(),
                    memory_bytes: module.memory_bytes,
                    dependencies: module.dependencies,
                    author: String::new(),
                    license: String::new(),
                    signer: String::new(),
                    sig_key: String::new(),
                },
            );
        }
        i += 1;
    }
    Err(Error::NotFound(name.to_owned()))
}

} // verus!
