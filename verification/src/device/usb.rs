//! Devices on the universal serial bus.
//!
//! Each device has a directory with a few files that hold one value each, and
//! a `uevent` file, an attribute block without prefix. The block names the
//! device numbers under which the device database keeps a second block, whose
//! lines are tagged `E:`.

use vstd::prelude::*;
use vstd::string::StringExecFns;
use crate::base::attribute::{
    block_diagnostics,
    parse_attributes,
    spec_block_diagnostics,
    spec_parse_attributes,
    KeyTable,
};
use crate::error::Diagnostic;
use crate::base::list::{lemma_filter_step, lemma_views_push, views};
use crate::base::text::{find, has_char, is_word, spec_trim, to_chars, trimmed};

verus! {

/// The directory whose entries are the devices and their interfaces.
pub const DIR: &'static str = "/sys/bus/usb/devices";

/// Where the device database keeps its blocks: the device numbers follow.
pub const UDEV_DIR: &'static str = "/run/udev/data/c";

/// The tag of the lines of the device database that state a fact.
pub const UDEV_PREFIX: &'static str = "E:";

/// One device.
#[derive(Debug, Clone, PartialEq, Eq)]
pub struct UsbDev {
    // These attributes are read from sysfs.
    pub max_power: String,
    pub manufacturer: String,
    pub product: String,
    pub speed: String,
    pub version: String,
    // These attributes are read from sysfs uevent.
    pub major: String,
    pub minor: String,
    pub dev_name: String,
    pub dev_type: String,
    pub bus_num: String,
    pub dev_num: String,
    // These attributes are read from udev.
    pub bus: String,
    pub model: String,
    pub model_id: String,
    pub serial: String,
    pub serial_short: String,
    pub vendor: String,
    pub vendor_id: String,
    pub revision: String,
    pub usb_interfaces: String,
    pub vendor_from_database: String,
    pub model_from_database: String,
    pub path_with_usb_revision: String,
    pub path: String,
}

/// A device, with its fields as sequences of characters.
pub struct UsbDevView {
    pub max_power: Seq<char>,
    pub manufacturer: Seq<char>,
    pub product: Seq<char>,
    pub speed: Seq<char>,
    pub version: Seq<char>,
    pub major: Seq<char>,
    pub minor: Seq<char>,
    pub dev_name: Seq<char>,
    pub dev_type: Seq<char>,
    pub bus_num: Seq<char>,
    pub dev_num: Seq<char>,
    pub bus: Seq<char>,
    pub model: Seq<char>,
    pub model_id: Seq<char>,
    pub serial: Seq<char>,
    pub serial_short: Seq<char>,
    pub vendor: Seq<char>,
    pub vendor_id: Seq<char>,
    pub revision: Seq<char>,
    pub usb_interfaces: Seq<char>,
    pub vendor_from_database: Seq<char>,
    pub model_from_database: Seq<char>,
    pub path_with_usb_revision: Seq<char>,
    pub path: Seq<char>,
}

impl View for UsbDev {
    type V = UsbDevView;

    open spec fn view(&self) -> UsbDevView {
        UsbDevView {
            max_power: self.max_power@,
            manufacturer: self.manufacturer@,
            product: self.product@,
            speed: self.speed@,
            version: self.version@,
            major: self.major@,
            minor: self.minor@,
            dev_name: self.dev_name@,
            dev_type: self.dev_type@,
            bus_num: self.bus_num@,
            dev_num: self.dev_num@,
            bus: self.bus@,
            model: self.model@,
            model_id: self.model_id@,
            serial: self.serial@,
            serial_short: self.serial_short@,
            vendor: self.vendor@,
            vendor_id: self.vendor_id@,
            revision: self.revision@,
            usb_interfaces: self.usb_interfaces@,
            vendor_from_database: self.vendor_from_database@,
            model_from_database: self.model_from_database@,
            path_with_usb_revision: self.path_with_usb_revision@,
            path: self.path@,
        }
    }
}

/// The device of which nothing is known: every field empty.
pub open spec fn spec_default() -> UsbDevView {
    UsbDevView {
        max_power: Seq::empty(),
        manufacturer: Seq::empty(),
        product: Seq::empty(),
        speed: Seq::empty(),
        version: Seq::empty(),
        major: Seq::empty(),
        minor: Seq::empty(),
        dev_name: Seq::empty(),
        dev_type: Seq::empty(),
        bus_num: Seq::empty(),
        dev_num: Seq::empty(),
        bus: Seq::empty(),
        model: Seq::empty(),
        model_id: Seq::empty(),
        serial: Seq::empty(),
        serial_short: Seq::empty(),
        vendor: Seq::empty(),
        vendor_id: Seq::empty(),
        revision: Seq::empty(),
        usb_interfaces: Seq::empty(),
        vendor_from_database: Seq::empty(),
        model_from_database: Seq::empty(),
        path_with_usb_revision: Seq::empty(),
        path: Seq::empty(),
    }
}

impl Default for UsbDev {
    fn default() -> (dev: Self)
        ensures
            dev@ == spec_default(),
    {
        UsbDev {
            max_power: String::new(),
            manufacturer: String::new(),
            product: String::new(),
            speed: String::new(),
            version: String::new(),
            major: String::new(),
            minor: String::new(),
            dev_name: String::new(),
            dev_type: String::new(),
            bus_num: String::new(),
            dev_num: String::new(),
            bus: String::new(),
            model: String::new(),
            model_id: String::new(),
            serial: String::new(),
            serial_short: String::new(),
            vendor: String::new(),
            vendor_id: String::new(),
            revision: String::new(),
            usb_interfaces: String::new(),
            vendor_from_database: String::new(),
            model_from_database: String::new(),
            path_with_usb_revision: String::new(),
            path: String::new(),
        }
    }
}

/// The fields that a key of one of the two attribute blocks can set.
#[derive(Debug, Clone, Copy, PartialEq, Eq, Structural)]
pub enum Field {
    Major,
    Minor,
    DevName,
    DevType,
    BusNum,
    DevNum,
    Bus,
    Model,
    ModelId,
    Serial,
    SerialShort,
    Vendor,
    VendorId,
    Revision,
    UsbInterfaces,
    VendorFromDatabase,
    ModelFromDatabase,
    PathWithUsbRevision,
    Path,
}

/// The field that `key` sets in the `uevent` block, if the key is known there.
pub open spec fn spec_uevent_field(key: Seq<char>) -> Option<Field> {
    if key == "MAJOR"@ {
        Some(Field::Major)
    } else if key == "MINOR"@ {
        Some(Field::Minor)
    } else if key == "DEVNAME"@ {
        Some(Field::DevName)
    } else if key == "DEVTYPE"@ {
        Some(Field::DevType)
    } else if key == "BUSNUM"@ {
        Some(Field::BusNum)
    } else if key == "DEVNUM"@ {
        Some(Field::DevNum)
    } else {
        None
    }
}

/// The field that `key` sets in the block of the device database, if the key
/// is known there.
pub open spec fn spec_udev_field(key: Seq<char>) -> Option<Field> {
    if key == "ID_BUS"@ {
        Some(Field::Bus)
    } else if key == "ID_MODEL"@ {
        Some(Field::Model)
    } else if key == "ID_MODEL_ID"@ {
        Some(Field::ModelId)
    } else if key == "ID_SERIAL"@ {
        Some(Field::Serial)
    } else if key == "ID_SERIAL_SHORT"@ {
        Some(Field::SerialShort)
    } else if key == "ID_VENDOR"@ {
        Some(Field::Vendor)
    } else if key == "ID_VENDOR_ID"@ {
        Some(Field::VendorId)
    } else if key == "ID_REVISION"@ {
        Some(Field::Revision)
    } else if key == "ID_USB_INTERFACES"@ {
        Some(Field::UsbInterfaces)
    } else if key == "ID_VENDOR_FROM_DATABASE"@ {
        Some(Field::VendorFromDatabase)
    } else if key == "ID_MODEL_FROM_DATABASE"@ {
        Some(Field::ModelFromDatabase)
    } else if key == "ID_PATH_WITH_USB_REVISION"@ {
        Some(Field::PathWithUsbRevision)
    } else if key == "ID_PATH"@ {
        Some(Field::Path)
    } else {
        None
    }
}

/// The field that `key` sets in the `uevent` block, if the key is known there.
pub fn uevent_field(key: &str) -> (f: Option<Field>)
    ensures
        f == spec_uevent_field(key@),
{
    let chars = to_chars(key);
    if is_word(&chars, "MAJOR") {
        Some(Field::Major)
    } else if is_word(&chars, "MINOR") {
        Some(Field::Minor)
    } else if is_word(&chars, "DEVNAME") {
        Some(Field::DevName)
    } else if is_word(&chars, "DEVTYPE") {
        Some(Field::DevType)
    } else if is_word(&chars, "BUSNUM") {
        Some(Field::BusNum)
    } else if is_word(&chars, "DEVNUM") {
        Some(Field::DevNum)
    } else {
        None
    }
}

/// The field that `key` sets in the block of the device database, if the key
/// is known there.
pub fn udev_field(key: &str) -> (f: Option<Field>)
    ensures
        f == spec_udev_field(key@),
{
    let chars = to_chars(key);
    if is_word(&chars, "ID_BUS") {
        Some(Field::Bus)
    } else if is_word(&chars, "ID_MODEL") {
        Some(Field::Model)
    } else if is_word(&chars, "ID_MODEL_ID") {
        Some(Field::ModelId)
    } else if is_word(&chars, "ID_SERIAL") {
        Some(Field::Serial)
    } else if is_word(&chars, "ID_SERIAL_SHORT") {
        Some(Field::SerialShort)
    } else if is_word(&chars, "ID_VENDOR") {
        Some(Field::Vendor)
    } else if is_word(&chars, "ID_VENDOR_ID") {
        Some(Field::VendorId)
    } else if is_word(&chars, "ID_REVISION") {
        Some(Field::Revision)
    } else if is_word(&chars, "ID_USB_INTERFACES") {
        Some(Field::UsbInterfaces)
    } else if is_word(&chars, "ID_VENDOR_FROM_DATABASE") {
        Some(Field::VendorFromDatabase)
    } else if is_word(&chars, "ID_MODEL_FROM_DATABASE") {
        Some(Field::ModelFromDatabase)
    } else if is_word(&chars, "ID_PATH_WITH_USB_REVISION") {
        Some(Field::PathWithUsbRevision)
    } else if is_word(&chars, "ID_PATH") {
        Some(Field::Path)
    } else {
        None
    }
}

/// `dev` with `field` set to `value`. Every field is text and takes any value.
pub open spec fn spec_set(dev: UsbDevView, field: Field, value: Seq<char>) -> UsbDevView {
    match field {
        Field::Major => UsbDevView { major: value, ..dev },
        Field::Minor => UsbDevView { minor: value, ..dev },
        Field::DevName => UsbDevView { dev_name: value, ..dev },
        Field::DevType => UsbDevView { dev_type: value, ..dev },
        Field::BusNum => UsbDevView { bus_num: value, ..dev },
        Field::DevNum => UsbDevView { dev_num: value, ..dev },
        Field::Bus => UsbDevView { bus: value, ..dev },
        Field::Model => UsbDevView { model: value, ..dev },
        Field::ModelId => UsbDevView { model_id: value, ..dev },
        Field::Serial => UsbDevView { serial: value, ..dev },
        Field::SerialShort => UsbDevView { serial_short: value, ..dev },
        Field::Vendor => UsbDevView { vendor: value, ..dev },
        Field::VendorId => UsbDevView { vendor_id: value, ..dev },
        Field::Revision => UsbDevView { revision: value, ..dev },
        Field::UsbInterfaces => UsbDevView { usb_interfaces: value, ..dev },
        Field::VendorFromDatabase => UsbDevView { vendor_from_database: value, ..dev },
        Field::ModelFromDatabase => UsbDevView { model_from_database: value, ..dev },
        Field::PathWithUsbRevision => UsbDevView { path_with_usb_revision: value, ..dev },
        Field::Path => UsbDevView { path: value, ..dev },
    }
}

/// Sets `field` of `dev` to `value`.
fn set(dev: UsbDev, field: Field, value: &str) -> (next: UsbDev)
    ensures
        next@ == spec_set(dev@, field, value@),
{
    let mut dev = dev;
    match field {
        Field::Major => {
            dev.major = value.to_owned();
        },
        Field::Minor => {
            dev.minor = value.to_owned();
        },
        Field::DevName => {
            dev.dev_name = value.to_owned();
        },
        Field::DevType => {
            dev.dev_type = value.to_owned();
        },
        Field::BusNum => {
            dev.bus_num = value.to_owned();
        },
        Field::DevNum => {
            dev.dev_num = value.to_owned();
        },
        Field::Bus => {
            dev.bus = value.to_owned();
        },
        Field::Model => {
            dev.model = value.to_owned();
        },
        Field::ModelId => {
            dev.model_id = value.to_owned();
        },
        Field::Serial => {
            dev.serial = value.to_owned();
        },
        Field::SerialShort => {
            dev.serial_short = value.to_owned();
        },
        Field::Vendor => {
            dev.vendor = value.to_owned();
        },
        Field::VendorId => {
            dev.vendor_id = value.to_owned();
        },
        Field::Revision => {
            dev.revision = value.to_owned();
        },
        Field::UsbInterfaces => {
            dev.usb_interfaces = value.to_owned();
        },
        Field::VendorFromDatabase => {
            dev.vendor_from_database = value.to_owned();
        },
        Field::ModelFromDatabase => {
            dev.model_from_database = value.to_owned();
        },
        Field::PathWithUsbRevision => {
            dev.path_with_usb_revision = value.to_owned();
        },
        Field::Path => {
            dev.path = value.to_owned();
        },
    }
    dev
}

/// `dev` after a fact of the `uevent` block: a known key sets its field, an
/// unknown one changes nothing.
pub open spec fn spec_assign_uevent(dev: UsbDevView, fact: (Seq<char>, Seq<char>)) -> UsbDevView {
    match spec_uevent_field(fact.0) {
        Some(field) => spec_set(dev, field, fact.1),
        None => dev,
    }
}

/// `dev` after a fact of the device database: a known key sets its field, an
/// unknown one changes nothing.
pub open spec fn spec_assign_udev(dev: UsbDevView, fact: (Seq<char>, Seq<char>)) -> UsbDevView {
    match spec_udev_field(fact.0) {
        Some(field) => spec_set(dev, field, fact.1),
        None => dev,
    }
}

/// What was read of one device: its path under `DIR`, its files of one value,
/// where they could be read, its `uevent` block and its block of the device
/// database.
#[derive(Debug, Clone, PartialEq, Eq)]
pub struct UsbDir {
    /// The path of the directory.
    pub path: String,
    /// The text of its file `bMaxPower`.
    pub max_power: Option<String>,
    /// The text of its file `manufacturer`.
    pub manufacturer: Option<String>,
    /// The text of its file `product`.
    pub product: Option<String>,
    /// The text of its file `speed`.
    pub speed: Option<String>,
    /// The text of its file `version`.
    pub version: Option<String>,
    /// The text of its file `uevent`.
    pub uevent: String,
    /// The text of the file of the device database that `udev_path` names.
    pub udev: String,
}

/// What was read of a device, as sequences of characters.
pub struct UsbDirView {
    pub path: Seq<char>,
    pub max_power: Option<Seq<char>>,
    pub manufacturer: Option<Seq<char>>,
    pub product: Option<Seq<char>>,
    pub speed: Option<Seq<char>>,
    pub version: Option<Seq<char>>,
    pub uevent: Seq<char>,
    pub udev: Seq<char>,
}

/// The characters of a text that may be absent.
pub open spec fn spec_text(file: Option<String>) -> Option<Seq<char>> {
    match file {
        Some(text) => Some(text@),
        None => None,
    }
}

impl View for UsbDir {
    type V = UsbDirView;

    open spec fn view(&self) -> UsbDirView {
        UsbDirView {
            path: self.path@,
            max_power: spec_text(self.max_power),
            manufacturer: spec_text(self.manufacturer),
            product: spec_text(self.product),
            speed: spec_text(self.speed),
            version: spec_text(self.version),
            uevent: self.uevent@,
            udev: self.udev@,
        }
    }
}

/// The value that a file of one value holds: its text without surrounding
/// whitespace, or nothing if the file is absent.
pub open spec fn spec_value(file: Option<Seq<char>>) -> Seq<char> {
    match file {
        Some(text) => spec_trim(text),
        None => Seq::empty(),
    }
}

/// The value that a file of one value holds.
pub fn value(file: &Option<String>) -> (v: String)
    ensures
        v@ == spec_value(spec_text(*file)),
{
    match file {
        Some(text) => trimmed(text.as_str()),
        None => String::new(),
    }
}

/// The facts of a `uevent` block, applied in order to `start`.
pub open spec fn spec_apply_uevent(start: UsbDevView, uevent: Seq<char>) -> UsbDevView {
    spec_parse_attributes(uevent, Seq::empty()).fold_left(
        start,
        |dev: UsbDevView, fact: (Seq<char>, Seq<char>)| spec_assign_uevent(dev, fact),
    )
}

/// The facts of a block of the device database, applied in order to `start`.
pub open spec fn spec_apply_udev(start: UsbDevView, udev: Seq<char>) -> UsbDevView {
    spec_parse_attributes(udev, UDEV_PREFIX@).fold_left(
        start,
        |dev: UsbDevView, fact: (Seq<char>, Seq<char>)| spec_assign_udev(dev, fact),
    )
}

/// The device as its directory alone describes it: the files of one value,
/// then the facts of the `uevent` block in order.
pub open spec fn spec_scan_sysfs(dir: UsbDirView) -> UsbDevView {
    spec_apply_uevent(
        UsbDevView {
            max_power: spec_value(dir.max_power),
            manufacturer: spec_value(dir.manufacturer),
            product: spec_value(dir.product),
            speed: spec_value(dir.speed),
            version: spec_value(dir.version),
            ..spec_default()
        },
        dir.uevent,
    )
}

/// The device that was read: as its directory describes it, then the facts of
/// its block of the device database in order.
pub open spec fn spec_scan_usb_event(dir: UsbDirView) -> UsbDevView {
    spec_apply_udev(spec_scan_sysfs(dir), dir.udev)
}

/// Applies the facts of the `uevent` block `uevent` in order to `start`.
fn apply_uevent(start: UsbDev, uevent: &str) -> (dev: UsbDev)
    ensures
        dev@ == spec_apply_uevent(start@, uevent@),
{
    let attributes = parse_attributes(uevent, None);
    let ghost facts = views(attributes@);
    let ghost step = |dev: UsbDevView, fact: (Seq<char>, Seq<char>)| spec_assign_uevent(dev, fact);
    let ghost first = start@;
    let mut dev = start;
    let mut i: usize = 0;
    proof {
        assert(facts.take(0) =~= Seq::<(Seq<char>, Seq<char>)>::empty());
    }
    while i < attributes.len()
        invariant
            i <= attributes.len(),
            facts == views(attributes@),
            step == |dev: UsbDevView, fact: (Seq<char>, Seq<char>)| spec_assign_uevent(dev, fact),
            dev@ == facts.take(i as int).fold_left(first, step),
        decreases attributes.len() - i,
    {
        proof {
            assert(facts.take(i + 1).drop_last() =~= facts.take(i as int));
            assert(facts.take(i + 1).last() == facts[i as int]);
            assert(facts[i as int] == attributes@[i as int]@);
        }
        match uevent_field(attributes[i].key.as_str()) {
            Some(f) => {
                dev = set(dev, f, attributes[i].value.as_str());
            },
            None => {},
        }
        i += 1;
    }
    proof {
        assert(facts.take(attributes.len() as int) =~= facts);
    }
    dev
}

/// Applies the facts of the block `udev` of the device database in order to
/// `start`.
fn apply_udev(start: UsbDev, udev: &str) -> (dev: UsbDev)
    ensures
        dev@ == spec_apply_udev(start@, udev@),
{
    let attributes = parse_attributes(udev, Some(UDEV_PREFIX));
    let ghost facts = views(attributes@);
    let ghost step = |dev: UsbDevView, fact: (Seq<char>, Seq<char>)| spec_assign_udev(dev, fact);
    let ghost first = start@;
    let mut dev = start;
    let mut i: usize = 0;
    proof {
        assert(facts.take(0) =~= Seq::<(Seq<char>, Seq<char>)>::empty());
    }
    while i < attributes.len()
        invariant
            i <= attributes.len(),
            facts == views(attributes@),
            step == |dev: UsbDevView, fact: (Seq<char>, Seq<char>)| spec_assign_udev(dev, fact),
            dev@ == facts.take(i as int).fold_left(first, step),
        decreases attributes.len() - i,
    {
        proof {
            assert(facts.take(i + 1).drop_last() =~= facts.take(i as int));
            assert(facts.take(i + 1).last() == facts[i as int]);
            assert(facts[i as int] == attributes@[i as int]@);
        }
        match udev_field(attributes[i].key.as_str()) {
            Some(f) => {
                dev = set(dev, f, attributes[i].value.as_str());
            },
            None => {},
        }
        i += 1;
    }
    proof {
        assert(facts.take(attributes.len() as int) =~= facts);
    }
    dev
}

/// Reads what the directory alone says of a device: its files of one value and
/// its `uevent` block. The block of the device database is not looked at.
pub fn scan_sysfs(dir: &UsbDir) -> (dev: UsbDev)
    ensures
        dev@ == spec_scan_sysfs(dir@),
{
    let mut start = UsbDev::default();
    start.max_power = value(&dir.max_power);
    start.manufacturer = value(&dir.manufacturer);
    start.product = value(&dir.product);
    start.speed = value(&dir.speed);
    start.version = value(&dir.version);
    apply_uevent(start, dir.uevent.as_str())
}

/// The path of the file of the device database that belongs to the device with
/// this `uevent` block: `UDEV_DIR`, then the major number, a colon and the
/// minor number, each as the block gives it.
pub open spec fn spec_udev_path(uevent: Seq<char>) -> Seq<char> {
    let dev = spec_apply_uevent(spec_default(), uevent);
    UDEV_DIR@ + dev.major + ":"@ + dev.minor
}

/// Returns the path of the file of the device database that belongs to the
/// device with this `uevent` block.
pub fn udev_path(uevent: &str) -> (path: String)
    ensures
        path@ == spec_udev_path(uevent@),
{
    let dev = apply_uevent(UsbDev::default(), uevent);
    let mut path = UDEV_DIR.to_owned();
    path.append(dev.major.as_str());
    path.append(":");
    path.append(dev.minor.as_str());
    path
}

/// Reads one device from what was read of it.
///
/// Starts from the defaults. Each file of one value, where it is there, sets
/// its field to its text without surrounding whitespace. Each line `KEY=value`
/// of the `uevent` block with a known key sets that key's field, and then so
/// does each line `E:KEY=value` of the block of the device database. Every
/// other line is passed over. Nothing here can fail: every field is text.
pub fn scan_usb_event(dir: &UsbDir) -> (dev: UsbDev)
    ensures
        dev@ == spec_scan_usb_event(dir@),
{
    let dev = scan_sysfs(dir);
    apply_udev(dev, dir.udev.as_str())
}

/// Whether the entry at `path` is a device: interfaces have a colon in their
/// path, devices have none.
pub open spec fn spec_is_device(path: Seq<char>) -> bool {
    !has_char(path, ':')
}

/// Whether the entry at `path` is a device.
pub fn is_device(path: &str) -> (b: bool)
    ensures
        b == spec_is_device(path@),
{
    let chars = to_chars(path);
    find(&chars, ':') >= chars.len()
}

/// The devices among the entries, in their order, each read as
/// `spec_scan_usb_event` says.
pub open spec fn spec_scan_usb(dirs: Seq<UsbDirView>) -> Seq<UsbDevView> {
    dirs.filter(|dir: UsbDirView| spec_is_device(dir.path)).map_values(
        |dir: UsbDirView| spec_scan_usb_event(dir),
    )
}

/// Reads the devices among `dirs`, what was read of the entries of `DIR`, in
/// the order in which they were listed. An entry with a colon in its path is
/// passed over; every other entry gives exactly one record.
pub fn scan_usb(dirs: &Vec<UsbDir>) -> (list: Vec<UsbDev>)
    ensures
        views(list@) == spec_scan_usb(views(dirs@)),
{
    let ghost all = views(dirs@);
    let ghost keep = |dir: UsbDirView| spec_is_device(dir.path);
    let ghost read = |dir: UsbDirView| spec_scan_usb_event(dir);
    let mut list: Vec<UsbDev> = Vec::new();
    let mut i: usize = 0;
    proof {
        reveal(Seq::filter);
        assert(all.take(0) =~= Seq::<UsbDirView>::empty());
        assert(views(list@) =~= all.take(0).filter(keep).map_values(read));
    }
    while i < dirs.len()
        invariant
            i <= dirs.len(),
            all == views(dirs@),
            keep == |dir: UsbDirView| spec_is_device(dir.path),
            read == |dir: UsbDirView| spec_scan_usb_event(dir),
            views(list@) == all.take(i as int).filter(keep).map_values(read),
        decreases dirs.len() - i,
    {
        proof {
            lemma_filter_step(all, keep, i as int);
            assert(all[i as int] == dirs@[i as int]@);
        }
        if is_device(dirs[i].path.as_str()) {
            let dev = scan_usb_event(&dirs[i]);
            proof {
                lemma_views_push(list@, dev);
                let kept = all.take(i as int).filter(keep);
                assert(kept.push(all[i as int]).map_values(read) =~= kept.map_values(read).push(
                    read(all[i as int]),
                ));
            }
            list.push(dev);
        }
        i += 1;
    }
    proof {
        assert(all.take(dirs.len() as int) =~= all);
    }
    list
}

/// The name under which the `uevent` block is reported.
pub const UEVENT_FILE: &'static str = "usb uevent";

/// The name under which the block of the device database is reported.
pub const UDEV_FILE: &'static str = "usb udev";

/// The keys of the `uevent` block.
pub struct UeventKeys;

/// The keys of the block of the device database.
pub struct UdevKeys;

impl KeyTable for UeventKeys {
    open spec fn spec_source() -> &'static str {
        UEVENT_FILE
    }

    fn source() -> (name: &'static str) {
        UEVENT_FILE
    }

    open spec fn spec_notice(key: Seq<char>, value: Seq<char>, line: usize) -> Option<Diagnostic> {
        match spec_uevent_field(key) {
            Some(_) => None,
            None => Some(Diagnostic::UnknownKey(UEVENT_FILE, line)),
        }
    }

    fn notice(key: &str, value: &str, line: usize) -> (n: Option<Diagnostic>) {
        match uevent_field(key) {
            Some(_) => None,
            None => Some(Diagnostic::UnknownKey(UEVENT_FILE, line)),
        }
    }
}

impl KeyTable for UdevKeys {
    open spec fn spec_source() -> &'static str {
        UDEV_FILE
    }

    fn source() -> (name: &'static str) {
        UDEV_FILE
    }

    open spec fn spec_notice(key: Seq<char>, value: Seq<char>, line: usize) -> Option<Diagnostic> {
        match spec_udev_field(key) {
            Some(_) => None,
            None => Some(Diagnostic::UnknownKey(UDEV_FILE, line)),
        }
    }

    fn notice(key: &str, value: &str, line: usize) -> (n: Option<Diagnostic>) {
        match udev_field(key) {
            Some(_) => None,
            None => Some(Diagnostic::UnknownKey(UDEV_FILE, line)),
        }
    }
}

/// The notice that a file of one value is worth: one if it is absent.
pub open spec fn spec_missing(content: Option<Seq<char>>, file: &'static str) -> Seq<Diagnostic> {
    match content {
        Some(_) => Seq::empty(),
        None => seq![Diagnostic::MissingFile(file)],
    }
}

/// The notices that a device is worth: one for each of the five files of one
/// value that is absent, then those of the `uevent` block, then those of the
/// block of the device database, each in the order of its lines.
pub open spec fn spec_diagnostics(dir: UsbDirView) -> Seq<Diagnostic> {
    spec_missing(dir.max_power, "bMaxPower") + spec_missing(dir.manufacturer, "manufacturer")
        + spec_missing(dir.product, "product") + spec_missing(dir.speed, "speed") + spec_missing(
        dir.version,
        "version",
    ) + spec_block_diagnostics::<UeventKeys>(dir.uevent, Seq::empty()) + spec_block_diagnostics::<
        UdevKeys,
    >(dir.udev, UDEV_PREFIX@)
}

/// Appends the notice that a file of one value is worth.
fn note_missing(notices: &mut Vec<Diagnostic>, content: &Option<String>, file: &'static str)
    ensures
        final(notices)@ == old(notices)@ + spec_missing(spec_text(*content), file),
{
    if content.is_none() {
        notices.push(Diagnostic::MissingFile(file));
        assert(notices@ =~= old(notices)@ + seq![Diagnostic::MissingFile(file)]);
    } else {
        assert(notices@ =~= old(notices)@ + Seq::<Diagnostic>::empty());
    }
}

/// Lists what `scan_usb_event` passes over or leaves at its default in `dir`:
/// each of the five files of one value that is absent, and in each of the two
/// blocks each line that states no fact and each fact with an unknown key.
pub fn diagnostics(dir: &UsbDir) -> (notices: Vec<Diagnostic>)
    ensures
        notices@ == spec_diagnostics(dir@),
{
    let mut notices: Vec<Diagnostic> = Vec::new();
    assert(notices@ =~= Seq::<Diagnostic>::empty());
    note_missing(&mut notices, &dir.max_power, "bMaxPower");
    assert(notices@ =~= spec_missing(dir@.max_power, "bMaxPower"));
    note_missing(&mut notices, &dir.manufacturer, "manufacturer");
    note_missing(&mut notices, &dir.product, "product");
    note_missing(&mut notices, &dir.speed, "speed");
    note_missing(&mut notices, &dir.version, "version");
    let mut uevent = block_diagnostics::<UeventKeys>(dir.uevent.as_str(), None);
    let mut udev = block_diagnostics::<UdevKeys>(dir.udev.as_str(), Some(UDEV_PREFIX));
    notices.append(&mut uevent);
    notices.append(&mut udev);
    notices
}

/// Reading is a function of what was read of the device alone: two readings of
/// one device, each as `scan_usb_event` gives it, are the same field by field.
pub proof fn lemma_scan_usb_event_twice(dir: UsbDirView, first: UsbDev, second: UsbDev)
    requires
        first@ == spec_scan_usb_event(dir),
        second@ == spec_scan_usb_event(dir),
    ensures
        first@ == second@,
{
}

} // verus!
