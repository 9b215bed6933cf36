//! The neighbour table of the address resolution protocol.

use vstd::prelude::*;
use crate::base::table::{read_records, spec_read_records, Delimiter, Header, Record, Schema};
use crate::base::list::outcome;
use crate::error::Error;

verus! {

/// Where the system keeps the table.
pub const FILE: &'static str = "/proc/net/arp";

/// What is wrong with a table whose header or rows do not have six fields.
pub const MISMATCH: &'static str = "Failed to parse arp file, expect 6 parts";

/// One neighbour.
#[derive(Debug, Clone, PartialEq, Eq)]
pub struct Arp {
    pub ip: String,
    pub hw_type: String,
    pub flags: String,
    pub hw_address: String,
    pub mask: String,
    /// network interface
    pub device: String,
}

/// A neighbour, with its fields as sequences of characters.
pub struct ArpView {
    pub ip: Seq<char>,
    pub hw_type: Seq<char>,
    pub flags: Seq<char>,
    pub hw_address: Seq<char>,
    pub mask: Seq<char>,
    pub device: Seq<char>,
}

impl View for Arp {
    type V = ArpView;

    open spec fn view(&self) -> ArpView {
        ArpView {
            ip: self.ip@,
            hw_type: self.hw_type@,
            flags: self.flags@,
            hw_address: self.hw_address@,
            mask: self.mask@,
            device: self.device@,
        }
    }
}

impl Default for Arp {
    fn default() -> (arp: Self)
        ensures
            arp@ == spec_default(),
    {
        Arp {
            ip: String::new(),
            hw_type: String::new(),
            flags: String::new(),
            hw_address: String::new(),
            mask: String::new(),
            device: String::new(),
        }
    }
}

/// The neighbour with every field empty.
pub open spec fn spec_default() -> ArpView {
    ArpView {
        ip: Seq::empty(),
        hw_type: Seq::empty(),
        flags: Seq::empty(),
        hw_address: Seq::empty(),
        mask: Seq::empty(),
        device: Seq::empty(),
    }
}

impl Record for Arp {
    /// Six fields parted by tabs, under a header that begins with `Iface`.
    open spec fn spec_schema() -> Schema {
        Schema {
            delimiter: Delimiter::Tab,
            columns: 6,
            open_ended: false,
            header: Header::Sentinel("Iface"),
        }
    }

    fn schema() -> (s: Schema) {
        Schema {
            delimiter: Delimiter::Tab,
            columns: 6,
            open_ended: false,
            header: Header::Sentinel("Iface"),
        }
    }

    open spec fn spec_mismatch() -> Error {
        Error::ParseFile(FILE, MISMATCH)
    }

    fn mismatch() -> (e: Error) {
        Error::ParseFile(FILE, MISMATCH)
    }

    /// Every field is taken as it stands.
    open spec fn spec_from_row(row: Seq<Seq<char>>) -> Result<ArpView, Error> {
        Ok(
            ArpView {
                ip: row[0],
                hw_type: row[1],
                flags: row[2],
                hw_address: row[3],
                mask: row[4],
                device: row[5],
            },
        )
    }

    fn from_row(row: &Vec<String>) -> (r: Result<Self, Error>) {
        Ok(
            Arp {
                ip: row[0].clone(),
                hw_type: row[1].clone(),
                flags: row[2].clone(),
                hw_address: row[3].clone(),
                mask: row[4].clone(),
                device: row[5].clone(),
            },
        )
    }
}

/// The neighbours that the table `content` lists, in its order, or the failure
/// of a table with a header or a row that does not have six fields.
pub open spec fn spec_get_list(content: Seq<char>) -> Result<Seq<ArpView>, Error> {
    spec_read_records::<Arp>(content)
}

/// Reads the neighbour table from `content`, the text of `FILE`.
///
/// Returns one record per row, in the order of the rows. Fails if the header or
/// any row does not have exactly six fields.
pub fn get_list(content: &str) -> (r: Result<Vec<Arp>, Error>)
    ensures
        outcome(r) == spec_get_list(content@),
{
    read_records::<Arp>(content)
}

} // verus!
