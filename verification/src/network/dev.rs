//! Network interfaces and their traffic counters.

use vstd::prelude::*;
use crate::base::classify::{lookup, spec_lookup, Entry, Rule};
use crate::base::number::{parse_i64, spec_parse_i64};
use crate::base::table::{read_records, spec_read_records, Delimiter, Header, Record, Schema};
use crate::base::list::{outcome, views};
use crate::base::text::{spec_trim, trimmed};
use crate::error::Error;

verus! {

/// Where the system keeps the table.
pub const FILE: &'static str = "/proc/net/dev";

/// What is wrong with a table whose rows do not have seventeen fields.
pub const MISMATCH: &'static str = "Failed to parse dev file, expect 17 parts";

/// The coarse kind of a network interface.
#[derive(Debug, Clone, Copy, PartialEq, Eq, Structural)]
pub enum DevType {
    Unknown,
    Loopback,
    Ethernet,
    Wireless,
    Bridge,
    PointToPoint,
    Bluetooth,
    VirtualNetwork,
    Mesh,
}

impl Default for DevType {
    fn default() -> (kind: Self)
        ensures
            kind == DevType::Unknown,
    {
        Self::Unknown
    }
}

/// A prefix of interface names and the kind of the interfaces so named.
#[derive(Debug, Clone, Copy)]
pub struct NamePair(pub &'static str, pub DevType);

impl Entry for NamePair {
    open spec fn matcher(&self) -> Seq<char> {
        self.0@
    }

    fn matcher_str(&self) -> (m: &str) {
        self.0
    }
}

/// The table of interface name prefixes. Earlier entries take precedence, so
/// `vmnet8` stands before `vmnet`, and `eth` before `en`.
pub open spec fn spec_eth_names() -> Seq<NamePair> {
    seq![
        NamePair("eth", DevType::Ethernet),
        NamePair("tap", DevType::Ethernet),
        NamePair("en", DevType::Ethernet),
        NamePair("net", DevType::Ethernet),
        NamePair("lo", DevType::Loopback),
        NamePair("ath", DevType::Wireless),
        NamePair("wlan", DevType::Wireless),
        NamePair("ra", DevType::Wireless),
        NamePair("wmaster", DevType::Wireless),
        NamePair("wl", DevType::Wireless),
        NamePair("ww", DevType::Wireless),
        NamePair("br", DevType::Bridge),
        NamePair("docker", DevType::Bridge),
        NamePair("ppp", DevType::PointToPoint),
        NamePair("tun", DevType::PointToPoint),
        NamePair("bnep", DevType::Bluetooth),
        NamePair("vmnet8", DevType::VirtualNetwork),
        NamePair("vmnet", DevType::VirtualNetwork),
        NamePair("vboxnet", DevType::VirtualNetwork),
        NamePair("ham", DevType::VirtualNetwork),
        NamePair("veth", DevType::VirtualNetwork),
        NamePair("msh", DevType::Mesh),
    ]
}

/// The table of interface name prefixes.
pub fn eth_names() -> (table: Vec<NamePair>)
    ensures
        table@ == spec_eth_names(),
{
    let table = vec![
        NamePair("eth", DevType::Ethernet),
        NamePair("tap", DevType::Ethernet),
        NamePair("en", DevType::Ethernet),
        NamePair("net", DevType::Ethernet),
        NamePair("lo", DevType::Loopback),
        NamePair("ath", DevType::Wireless),
        NamePair("wlan", DevType::Wireless),
        NamePair("ra", DevType::Wireless),
        NamePair("wmaster", DevType::Wireless),
        NamePair("wl", DevType::Wireless),
        NamePair("ww", DevType::Wireless),
        NamePair("br", DevType::Bridge),
        NamePair("docker", DevType::Bridge),
        NamePair("ppp", DevType::PointToPoint),
        NamePair("tun", DevType::PointToPoint),
        NamePair("bnep", DevType::Bluetooth),
        NamePair("vmnet8", DevType::VirtualNetwork),
        NamePair("vmnet", DevType::VirtualNetwork),
        NamePair("vboxnet", DevType::VirtualNetwork),
        NamePair("ham", DevType::VirtualNetwork),
        NamePair("veth", DevType::VirtualNetwork),
        NamePair("msh", DevType::Mesh),
    ];
    assert(table@ =~= spec_eth_names());
    table
}

/// The kind of the interface called `name`: that of the first entry of the
/// prefix table with which `name` begins, or `Unknown` if it begins with none.
pub open spec fn spec_from_name(name: Seq<char>) -> DevType {
    match spec_lookup(spec_eth_names(), name, Rule::Prefix) {
        Some(pair) => pair.1,
        None => DevType::Unknown,
    }
}

impl DevType {
    /// Tells the kind of an interface from its name.
    #[must_use]
    pub fn from_name(name: &str) -> (kind: Self)
        ensures
            kind == spec_from_name(name@),
    {
        let table = eth_names();
        match lookup(&table, name, Rule::Prefix) {
            Some(pair) => pair.1,
            None => Self::Unknown,
        }
    }
}

/// One network interface.
///
/// The table gives the name and the counters. The kind is told from the name.
/// The addresses and the transmission unit are not in the table: reading it
/// leaves them empty and zero.
#[derive(Debug, Clone, PartialEq, Eq)]
pub struct Dev {
    pub interface: String,
    pub received_bytes: i64,
    pub received_packets: i64,
    pub received_errors: i64,
    pub received_drop: i64,
    pub received_fifo: i64,
    pub received_frame: i64,
    pub received_compressed: i64,
    pub received_multicast: i64,
    pub transmit_bytes: i64,
    pub transmit_packets: i64,
    pub transmit_errors: i64,
    pub transmit_drop: i64,
    pub transmit_fifo: i64,
    pub transmit_colls: i64,
    pub transmit_carrier: i64,
    pub transmit_compressed: i64,
    pub ip: String,
    pub mac: String,
    pub mask: String,
    pub broadcast: String,
    pub mtu: i32,
    pub dev_type: DevType,
}

/// A network interface, with its text fields as sequences of characters.
pub struct DevView {
    pub interface: Seq<char>,
    pub received_bytes: i64,
    pub received_packets: i64,
    pub received_errors: i64,
    pub received_drop: i64,
    pub received_fifo: i64,
    pub received_frame: i64,
    pub received_compressed: i64,
    pub received_multicast: i64,
    pub transmit_bytes: i64,
    pub transmit_packets: i64,
    pub transmit_errors: i64,
    pub transmit_drop: i64,
    pub transmit_fifo: i64,
    pub transmit_colls: i64,
    pub transmit_carrier: i64,
    pub transmit_compressed: i64,
    pub ip: Seq<char>,
    pub mac: Seq<char>,
    pub mask: Seq<char>,
    pub broadcast: Seq<char>,
    pub mtu: i32,
    pub dev_type: DevType,
}

impl View for Dev {
    type V = DevView;

    open spec fn view(&self) -> DevView {
        DevView {
            interface: self.interface@,
            received_bytes: self.received_bytes,
            received_packets: self.received_packets,
            received_errors: self.received_errors,
            received_drop: self.received_drop,
            received_fifo: self.received_fifo,
            received_frame: self.received_frame,
            received_compressed: self.received_compressed,
            received_multicast: self.received_multicast,
            transmit_bytes: self.transmit_bytes,
            transmit_packets: self.transmit_packets,
            transmit_errors: self.transmit_errors,
            transmit_drop: self.transmit_drop,
            transmit_fifo: self.transmit_fifo,
            transmit_colls: self.transmit_colls,
            transmit_carrier: self.transmit_carrier,
            transmit_compressed: self.transmit_compressed,
            ip: self.ip@,
            mac: self.mac@,
            mask: self.mask@,
            broadcast: self.broadcast@,
            mtu: self.mtu,
            dev_type: self.dev_type,
        }
    }
}

/// The interface with every text field empty, every number zero and the kind
/// unknown.
pub open spec fn spec_default() -> DevView {
    DevView {
        interface: Seq::empty(),
        received_bytes: 0,
        received_packets: 0,
        received_errors: 0,
        received_drop: 0,
        received_fifo: 0,
        received_frame: 0,
        received_compressed: 0,
        received_multicast: 0,
        transmit_bytes: 0,
        transmit_packets: 0,
        transmit_errors: 0,
        transmit_drop: 0,
        transmit_fifo: 0,
        transmit_colls: 0,
        transmit_carrier: 0,
        transmit_compressed: 0,
        ip: Seq::empty(),
        mac: Seq::empty(),
        mask: Seq::empty(),
        broadcast: Seq::empty(),
        mtu: 0,
        dev_type: DevType::Unknown,
    }
}

impl Default for Dev {
    fn default() -> (dev: Self)
        ensures
            dev@ == spec_default(),
    {
        Dev {
            interface: String::new(),
            received_bytes: 0,
            received_packets: 0,
            received_errors: 0,
            received_drop: 0,
            received_fifo: 0,
            received_frame: 0,
            received_compressed: 0,
            received_multicast: 0,
            transmit_bytes: 0,
            transmit_packets: 0,
            transmit_errors: 0,
            transmit_drop: 0,
            transmit_fifo: 0,
            transmit_colls: 0,
            transmit_carrier: 0,
            transmit_compressed: 0,
            ip: String::new(),
            mac: String::new(),
            mask: String::new(),
            broadcast: String::new(),
            mtu: 0,
            dev_type: DevType::Unknown,
        }
    }
}

/// What is wrong with the counter in column `column`, from 1 to 16.
pub open spec fn spec_counter_reason(column: int) -> &'static str {
    if column == 1 {
        "Failed to parse received bytes"
    } else if column == 2 {
        "Failed to parse received packets"
    } else if column == 3 {
        "Failed to parse received errors"
    } else if column == 4 {
        "Failed to parse received drop"
    } else if column == 5 {
        "Failed to parse received fifo"
    } else if column == 6 {
        "Failed to parse received frame"
    } else if column == 7 {
        "Failed to parse received compressed"
    } else if column == 8 {
        "Failed to parse received multicast"
    } else if column == 9 {
        "Failed to parse transmit bytes"
    } else if column == 10 {
        "Failed to parse transmit packets"
    } else if column == 11 {
        "Failed to parse transmit errors"
    } else if column == 12 {
        "Failed to parse transmit drop"
    } else if column == 13 {
        "Failed to parse transmit fifo"
    } else if column == 14 {
        "Failed to parse transmit colls"
    } else if column == 15 {
        "Failed to parse transmit carrier"
    } else {
        "Failed to parse transmit compressed"
    }
}

/// What is wrong with the counter in column `column`.
fn counter_reason(column: usize) -> (reason: &'static str)
    ensures
        reason == spec_counter_reason(column as int),
{
    if column == 1 {
        "Failed to parse received bytes"
    } else if column == 2 {
        "Failed to parse received packets"
    } else if column == 3 {
        "Failed to parse received errors"
    } else if column == 4 {
        "Failed to parse received drop"
    } else if column == 5 {
        "Failed to parse received fifo"
    } else if column == 6 {
        "Failed to parse received frame"
    } else if column == 7 {
        "Failed to parse received compressed"
    } else if column == 8 {
        "Failed to parse received multicast"
    } else if column == 9 {
        "Failed to parse transmit bytes"
    } else if column == 10 {
        "Failed to parse transmit packets"
    } else if column == 11 {
        "Failed to parse transmit errors"
    } else if column == 12 {
        "Failed to parse transmit drop"
    } else if column == 13 {
        "Failed to parse transmit fifo"
    } else if column == 14 {
        "Failed to parse transmit colls"
    } else if column == 15 {
        "Failed to parse transmit carrier"
    } else {
        "Failed to parse transmit compressed"
    }
}

/// The counter that column `column` of `row` holds: a decimal `i64`, read
/// without surrounding whitespace.
pub open spec fn spec_counter(row: Seq<Seq<char>>, column: int) -> Option<i64> {
    spec_parse_i64(spec_trim(row[column]))
}

/// The first column from `column` to 16 that holds no counter, if there is
/// one.
pub open spec fn spec_first_bad_counter(row: Seq<Seq<char>>, column: int) -> Option<int>
    decreases 17 - column,
{
    if column < 1 || column > 16 {
        None
    } else if spec_counter(row, column) is None {
        Some(column)
    } else {
        spec_first_bad_counter(row, column + 1)
    }
}

impl Record for Dev {
    /// The interface name and sixteen counters, parted by whitespace. Lines
    /// with a `|` are decoration.
    open spec fn spec_schema() -> Schema {
        Schema {
            delimiter: Delimiter::Whitespace,
            columns: 17,
            open_ended: false,
            header: Header::Decoration('|'),
        }
    }

    fn schema() -> (s: Schema) {
        Schema {
            delimiter: Delimiter::Whitespace,
            columns: 17,
            open_ended: false,
            header: Header::Decoration('|'),
        }
    }

    open spec fn spec_mismatch() -> Error {
        Error::ParseFile(FILE, MISMATCH)
    }

    fn mismatch() -> (e: Error) {
        Error::ParseFile(FILE, MISMATCH)
    }

    /// The name is the first field; the kind follows from the name; the
    /// sixteen counters follow in the order of the record's fields. The first
    /// column that holds no counter fails the row, naming the counter.
    open spec fn spec_from_row(row: Seq<Seq<char>>) -> Result<DevView, Error> {
        match spec_first_bad_counter(row, 1) {
            Some(column) => Err(Error::ParseFile(FILE, spec_counter_reason(column))),
            None => Ok(
                DevView {
                    interface: spec_trim(row[0]),
                    received_bytes: spec_counter(row, 1)->0,
                    received_packets: spec_counter(row, 2)->0,
                    received_errors: spec_counter(row, 3)->0,
                    received_drop: spec_counter(row, 4)->0,
                    received_fifo: spec_counter(row, 5)->0,
                    received_frame: spec_counter(row, 6)->0,
                    received_compressed: spec_counter(row, 7)->0,
                    received_multicast: spec_counter(row, 8)->0,
                    transmit_bytes: spec_counter(row, 9)->0,
                    transmit_packets: spec_counter(row, 10)->0,
                    transmit_errors: spec_counter(row, 11)->0,
                    transmit_drop: spec_counter(row, 12)->0,
                    transmit_fifo: spec_counter(row, 13)->0,
                    transmit_colls: spec_counter(row, 14)->0,
                    transmit_carrier: spec_counter(row, 15)->0,
                    transmit_compressed: spec_counter(row, 16)->0,
                    ip: Seq::empty(),
                    mac: Seq::empty(),
                    mask: Seq::empty(),
                    broadcast: Seq::empty(),
                    mtu: 0,
                    dev_type: spec_from_name(spec_trim(row[0])),
                },
            ),
        }
    }

    fn from_row(row: &Vec<String>) -> (r: Result<Self, Error>) {
        let interface = trimmed(row[0].as_str());
        let dev_type = DevType::from_name(interface.as_str());
        let mut counters: Vec<i64> = Vec::new();
        let mut column: usize = 1;
        while column <= 16
            invariant
                1 <= column <= 17,
                row@.len() == 17,
                counters@.len() == column - 1,
                spec_first_bad_counter(views(row@), 1) == spec_first_bad_counter(
                    views(row@),
                    column as int,
                ),
                forall|j: int|
                    1 <= j < column ==> spec_counter(views(row@), j) == Some(
                        #[trigger] counters@[j - 1],
                    ),
            decreases 17 - column,
        {
            let text = trimmed(row[column].as_str());
            match parse_i64(text.as_str()) {
                Some(n) => {
                    counters.push(n);
                },
                None => {
                    return Err(Error::ParseFile(FILE, counter_reason(column)));
                },
            }
            column += 1;
        }
        proof {
            assert forall|j: int| 1 <= j <= 16 implies spec_counter(views(row@), j) == Some(
                counters@[j - 1],
            ) by {
                assert(spec_counter(views(row@), j) == Some(counters@[j - 1]));
            }
        }
        Ok(
            Dev {
                interface,
                received_bytes: counters[0],
                received_packets: counters[1],
                received_errors: counters[2],
                received_drop: counters[3],
                received_fifo: counters[4],
                received_frame: counters[5],
                received_compressed: counters[6],
                received_multicast: counters[7],
                transmit_bytes: counters[8],
                transmit_packets: counters[9],
                transmit_errors: counters[10],
                transmit_drop: counters[11],
                transmit_fifo: counters[12],
                transmit_colls: counters[13],
                transmit_carrier: counters[14],
                transmit_compressed: counters[15],
                ip: String::new(),
                mac: String::new(),
                mask: String::new(),
                broadcast: String::new(),
                mtu: 0,
                dev_type,
            },
        )
    }
}

/// The interfaces that the table `content` lists, in its order; or the failure
/// of a table with a row that does not have seventeen fields; or that of the
/// first counter that holds no number.
pub open spec fn spec_get_list(content: Seq<char>) -> Result<Seq<DevView>, Error> {
    spec_read_records::<Dev>(content)
}

/// Reads the interface table from `content`, the text of `FILE`.
///
/// Returns one record per row, in the order of the rows; the decorative header
/// lines are passed over. Fails if a row does not have exactly seventeen
/// fields, and else if a counter of some row is no decimal `i64`; the failure
/// names the first such counter of the first such row.
pub fn get_list(content: &str) -> (r: Result<Vec<Dev>, Error>)
    ensures
        outcome(r) == spec_get_list(content@),
{
    read_records::<Dev>(content)
}

} // verus!
