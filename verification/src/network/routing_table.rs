//! The kernel's routing table.

use vstd::prelude::*;
use crate::base::number::{parse_i32, spec_parse_i32};
use crate::base::table::{read_records, spec_read_records, Delimiter, Header, Record, Schema};
use crate::base::list::outcome;
use crate::error::Error;

verus! {

/// Where the system keeps the table.
pub const FILE: &'static str = "/proc/net/route";

/// What is wrong with a table whose header or rows do not have eleven fields.
pub const MISMATCH: &'static str = "Failed to parse route file, expect 11 parts";

/// One route.
#[derive(Debug, Clone, PartialEq, Eq)]
pub struct Routing {
    pub interface: String,
    pub destination: String,
    pub gateway: String,
    pub flags: String,
    pub refcnt: i32,
    pub used: i32,
    pub metric: i32,
    pub mask: String,
    pub mtu: i32,
    pub window: i32,
    pub irtt: i32,
}

/// A route, with its text fields as sequences of characters.
pub struct RoutingView {
    pub interface: Seq<char>,
    pub destination: Seq<char>,
    pub gateway: Seq<char>,
    pub flags: Seq<char>,
    pub refcnt: i32,
    pub used: i32,
    pub metric: i32,
    pub mask: Seq<char>,
    pub mtu: i32,
    pub window: i32,
    pub irtt: i32,
}

impl View for Routing {
    type V = RoutingView;

    open spec fn view(&self) -> RoutingView {
        RoutingView {
            interface: self.interface@,
            destination: self.destination@,
            gateway: self.gateway@,
            flags: self.flags@,
            refcnt: self.refcnt,
            used: self.used,
            metric: self.metric,
            mask: self.mask@,
            mtu: self.mtu,
            window: self.window,
            irtt: self.irtt,
        }
    }
}

/// The route with every text field empty and every number zero.
pub open spec fn spec_default() -> RoutingView {
    RoutingView {
        interface: Seq::empty(),
        destination: Seq::empty(),
        gateway: Seq::empty(),
        flags: Seq::empty(),
        refcnt: 0,
        used: 0,
        metric: 0,
        mask: Seq::empty(),
        mtu: 0,
        window: 0,
        irtt: 0,
    }
}

impl Default for Routing {
    fn default() -> (routing: Self)
        ensures
            routing@ == spec_default(),
    {
        Routing {
            interface: String::new(),
            destination: String::new(),
            gateway: String::new(),
            flags: String::new(),
            refcnt: 0,
            used: 0,
            metric: 0,
            mask: String::new(),
            mtu: 0,
            window: 0,
            irtt: 0,
        }
    }
}

/// The failure of a number field, by the index of its column.
pub open spec fn spec_field_error(column: int) -> Error {
    Error::ParseFile(
        FILE,
        if column == 4 {
            "Failed to parse refcnt"
        } else if column == 5 {
            "Failed to parse used"
        } else if column == 6 {
            "Failed to parse metric"
        } else if column == 8 {
            "Failed to parse mtu"
        } else if column == 9 {
            "Failed to parse window"
        } else {
            "Failed to parse irtt"
        },
    )
}

/// The index of the first number column of `row` that holds no `i32`, if there
/// is one. The number columns are 4, 5, 6, 8, 9 and 10.
pub open spec fn spec_first_bad_number(row: Seq<Seq<char>>) -> Option<int> {
    if spec_parse_i32(row[4]) is None {
        Some(4)
    } else if spec_parse_i32(row[5]) is None {
        Some(5)
    } else if spec_parse_i32(row[6]) is None {
        Some(6)
    } else if spec_parse_i32(row[8]) is None {
        Some(8)
    } else if spec_parse_i32(row[9]) is None {
        Some(9)
    } else if spec_parse_i32(row[10]) is None {
        Some(10)
    } else {
        None
    }
}

/// The failure of the number field in column `column`.
fn field_error(column: usize) -> (e: Error)
    ensures
        e == spec_field_error(column as int),
{
    Error::ParseFile(
        FILE,
        if column == 4 {
            "Failed to parse refcnt"
        } else if column == 5 {
            "Failed to parse used"
        } else if column == 6 {
            "Failed to parse metric"
        } else if column == 8 {
            "Failed to parse mtu"
        } else if column == 9 {
            "Failed to parse window"
        } else {
            "Failed to parse irtt"
        },
    )
}

impl Record for Routing {
    /// Eleven fields parted by whitespace, under a header that begins with
    /// `Iface`.
    open spec fn spec_schema() -> Schema {
        Schema {
            delimiter: Delimiter::Whitespace,
            columns: 11,
            open_ended: false,
            header: Header::Sentinel("Iface"),
        }
    }

    fn schema() -> (s: Schema) {
        Schema {
            delimiter: Delimiter::Whitespace,
            columns: 11,
            open_ended: false,
            header: Header::Sentinel("Iface"),
        }
    }

    open spec fn spec_mismatch() -> Error {
        Error::ParseFile(FILE, MISMATCH)
    }

    fn mismatch() -> (e: Error) {
        Error::ParseFile(FILE, MISMATCH)
    }

    /// Text fields are taken as they stand; number fields are decimal `i32`s,
    /// and the first of them that is none fails the row, naming the field.
    open spec fn spec_from_row(row: Seq<Seq<char>>) -> Result<RoutingView, Error> {
        match spec_first_bad_number(row) {
            Some(column) => Err(spec_field_error(column)),
            None => Ok(
                RoutingView {
                    interface: row[0],
                    destination: row[1],
                    gateway: row[2],
                    flags: row[3],
                    refcnt: spec_parse_i32(row[4])->0,
                    used: spec_parse_i32(row[5])->0,
                    metric: spec_parse_i32(row[6])->0,
                    mask: row[7],
                    mtu: spec_parse_i32(row[8])->0,
                    window: spec_parse_i32(row[9])->0,
                    irtt: spec_parse_i32(row[10])->0,
                },
            ),
        }
    }

    fn from_row(row: &Vec<String>) -> (r: Result<Self, Error>) {
        let refcnt = match parse_i32(row[4].as_str()) {
            Some(n) => n,
            None => {
                return Err(field_error(4));
            },
        };
        let used = match parse_i32(row[5].as_str()) {
            Some(n) => n,
            None => {
                return Err(field_error(5));
            },
        };
        let metric = match parse_i32(row[6].as_str()) {
            Some(n) => n,
            None => {
                return Err(field_error(6));
            },
        };
        let mtu = match parse_i32(row[8].as_str()) {
            Some(n) => n,
            None => {
                return Err(field_error(8));
            },
        };
        let window = match parse_i32(row[9].as_str()) {
            Some(n) => n,
            None => {
                return Err(field_error(9));
            },
        };
        let irtt = match parse_i32(row[10].as_str()) {
            Some(n) => n,
            None => {
                return Err(field_error(10));
            },
        };
        Ok(
            Routing {
                interface: row[0].clone(),
                destination: row[1].clone(),
                gateway: row[2].clone(),
                flags: row[3].clone(),
                refcnt,
                used,
                metric,
                mask: row[7].clone(),
                mtu,
                window,
                irtt,
            },
        )
    }
}

/// The routes that the table `content` lists, in its order; or the failure of
/// a table with a header or a row that does not have eleven fields; or that of
/// the first number field that holds no number.
pub open spec fn spec_get_list(content: Seq<char>) -> Result<Seq<RoutingView>, Error> {
    spec_read_records::<Routing>(content)
}

/// Reads the routing table from `content`, the text of `FILE`.
///
/// Returns one record per row, in the order of the rows. Fails if the header or
/// any row does not have exactly eleven fields, and else if a number field of
/// some row is no decimal `i32`; the failure names the first such field of the
/// first such row.
pub fn get_list(content: &str) -> (r: Result<Vec<Routing>, Error>)
    ensures
        outcome(r) == spec_get_list(content@),
{
    read_records::<Routing>(content)
}

} // verus!
