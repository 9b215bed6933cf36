//! Power supplies.
//!
//! Each power supply has a directory. Its `uevent` file is an attribute block
//! with the prefix `POWER_SUPPLY_`; three further files, which may be absent,
//! each hold one number.

use vstd::prelude::*;
use vstd::std_specs::convert::FromSpecImpl;
use crate::base::attribute::{
    block_diagnostics,
    parse_attributes,
    spec_block_diagnostics,
    spec_parse_attributes,
    KeyTable,
};
use crate::base::list::{
    lemma_filter_prefix,
    lemma_filter_step,
    lemma_try_map_fails,
    lemma_try_map_push,
    lemma_views_push,
    outcome,
    outcome_of,
    try_map,
    views,
};
use crate::base::number::{parse_i32, parse_u8, spec_parse_i32, spec_parse_u8};
use crate::base::text::{
    is_word,
    spec_starts_with,
    spec_trim,
    starts_with,
    str_eq,
    to_chars,
    trimmed,
};
use crate::error::{Diagnostic, Error};

verus! {

/// The directory whose subdirectories are the power supplies.
pub const DIR: &'static str = "/sys/class/power_supply";

/// The name under which the attribute block is reported.
pub const FILE: &'static str = "power_supply/uevent";

/// The name under which the alarm file is reported.
pub const ALARM_FILE: &'static str = "power_supply/alarm";

/// The name under which the file of the upper charge threshold is reported.
pub const END_THRESHOLD_FILE: &'static str = "power_supply/charge_control_end_threshold";

/// The name under which the file of the lower charge threshold is reported.
pub const START_THRESHOLD_FILE: &'static str = "power_supply/charge_control_start_threshold";

/// What stands before each key of the attribute block.
pub const PREFIX: &'static str = "POWER_SUPPLY_";

/// Power supply type.
///
/// Any text that names no variant reads as `Unknown`.
#[derive(Debug, Clone, Copy, PartialEq, Eq, Structural)]
#[allow(non_camel_case_types)]
pub enum Type {
    Unknown,
    Battery,
    UPS,
    Mains,
    USB,
    USB_DCP,
    USB_CDP,
    USB_ACA,
    USB_C,
    USB_PD,
    USB_PD_DRP,
    BrickID,
    Wireless,
}

/// The power supply type that `s` names, or `Unknown` if it names none.
pub open spec fn spec_type(s: Seq<char>) -> Type {
    if s == "Battery"@ {
        Type::Battery
    } else if s == "UPS"@ {
        Type::UPS
    } else if s == "Mains"@ {
        Type::Mains
    } else if s == "USB"@ {
        Type::USB
    } else if s == "USB_DCP"@ {
        Type::USB_DCP
    } else if s == "USB_CDP"@ {
        Type::USB_CDP
    } else if s == "USB_ACA"@ {
        Type::USB_ACA
    } else if s == "USB_C"@ {
        Type::USB_C
    } else if s == "USB_PD"@ {
        Type::USB_PD
    } else if s == "USB_PD_DRP"@ {
        Type::USB_PD_DRP
    } else if s == "BrickID"@ {
        Type::BrickID
    } else if s == "Wireless"@ {
        Type::Wireless
    } else {
        Type::Unknown
    }
}

impl Default for Type {
    fn default() -> (kind: Self)
        ensures
            kind == Type::Unknown,
    {
        Self::Unknown
    }
}

impl From<&str> for Type {
    fn from(s: &str) -> (kind: Self) {
        let chars = to_chars(s);
        if is_word(&chars, "Battery") {
            Self::Battery
        } else if is_word(&chars, "UPS") {
            Self::UPS
        } else if is_word(&chars, "Mains") {
            Self::Mains
        } else if is_word(&chars, "USB") {
            Self::USB
        } else if is_word(&chars, "USB_DCP") {
            Self::USB_DCP
        } else if is_word(&chars, "USB_CDP") {
            Self::USB_CDP
        } else if is_word(&chars, "USB_ACA") {
            Self::USB_ACA
        } else if is_word(&chars, "USB_C") {
            Self::USB_C
        } else if is_word(&chars, "USB_PD") {
            Self::USB_PD
        } else if is_word(&chars, "USB_PD_DRP") {
            Self::USB_PD_DRP
        } else if is_word(&chars, "BrickID") {
            Self::BrickID
        } else if is_word(&chars, "Wireless") {
            Self::Wireless
        } else {
            Self::Unknown
        }
    }
}

impl FromSpecImpl<&str> for Type {
    open spec fn obeys_from_spec() -> bool {
        true
    }

    open spec fn from_spec(s: &str) -> Self {
        spec_type(s@)
    }
}

/// Power supply status.
///
/// Any text that names no variant reads as `Unknown`.
#[derive(Debug, Clone, Copy, PartialEq, Eq, Structural)]
pub enum Status {
    Unknown,
    Charging,
    Discharging,
    NotCharging,
    Full,
}

/// The power supply status that `s` names, or `Unknown` if it names none.
pub open spec fn spec_status(s: Seq<char>) -> Status {
    if s == "Charging"@ {
        Status::Charging
    } else if s == "Discharging"@ {
        Status::Discharging
    } else if s == "Not charging"@ {
        Status::NotCharging
    } else if s == "Full"@ {
        Status::Full
    } else {
        Status::Unknown
    }
}

impl Default for Status {
    fn default() -> (status: Self)
        ensures
            status == Status::Unknown,
    {
        Self::Unknown
    }
}

impl From<&str> for Status {
    fn from(s: &str) -> (status: Self) {
        let chars = to_chars(s);
        if is_word(&chars, "Charging") {
            Self::Charging
        } else if is_word(&chars, "Discharging") {
            Self::Discharging
        } else if is_word(&chars, "Not charging") {
            Self::NotCharging
        } else if is_word(&chars, "Full") {
            Self::Full
        } else {
            Self::Unknown
        }
    }
}

impl FromSpecImpl<&str> for Status {
    open spec fn obeys_from_spec() -> bool {
        true
    }

    open spec fn from_spec(s: &str) -> Self {
        spec_status(s@)
    }
}

/// Power supply technology.
///
/// Any text that names no variant reads as `Unknown`.
#[derive(Debug, Clone, Copy, PartialEq, Eq, Structural)]
pub enum Technology {
    Unknown,
    NiMH,
    LiIon,
    LiPoly,
    LiFe,
    NiCd,
    LiMn,
}

/// The power supply technology that `s` names, or `Unknown` if it names none.
pub open spec fn spec_technology(s: Seq<char>) -> Technology {
    if s == "NiMH"@ {
        Technology::NiMH
    } else if s == "Li-ion"@ {
        Technology::LiIon
    } else if s == "Li-poly"@ {
        Technology::LiPoly
    } else if s == "LiFe"@ {
        Technology::LiFe
    } else if s == "NiCd"@ {
        Technology::NiCd
    } else if s == "LiMn"@ {
        Technology::LiMn
    } else {
        Technology::Unknown
    }
}

impl Default for Technology {
    fn default() -> (technology: Self)
        ensures
            technology == Technology::Unknown,
    {
        Self::Unknown
    }
}

impl From<&str> for Technology {
    fn from(s: &str) -> (technology: Self) {
        let chars = to_chars(s);
        if is_word(&chars, "NiMH") {
            Self::NiMH
        } else if is_word(&chars, "Li-ion") {
            Self::LiIon
        } else if is_word(&chars, "Li-poly") {
            Self::LiPoly
        } else if is_word(&chars, "LiFe") {
            Self::LiFe
        } else if is_word(&chars, "NiCd") {
            Self::NiCd
        } else if is_word(&chars, "LiMn") {
            Self::LiMn
        } else {
            Self::Unknown
        }
    }
}

impl FromSpecImpl<&str> for Technology {
    open spec fn obeys_from_spec() -> bool {
        true
    }

    open spec fn from_spec(s: &str) -> Self {
        spec_technology(s@)
    }
}

/// Capacity level of power supply.
///
/// Any text that names no variant reads as `Unknown`.
#[derive(Debug, Clone, Copy, PartialEq, Eq, Structural)]
pub enum CapacityLevel {
    Unknown,
    Critical,
    Low,
    Normal,
    High,
    Full,
}

/// The capacity level of power supply that `s` names, or `Unknown` if it names none.
pub open spec fn spec_capacity_level(s: Seq<char>) -> CapacityLevel {
    if s == "Critical"@ {
        CapacityLevel::Critical
    } else if s == "Low"@ {
        CapacityLevel::Low
    } else if s == "Normal"@ {
        CapacityLevel::Normal
    } else if s == "High"@ {
        CapacityLevel::High
    } else if s == "Full"@ {
        CapacityLevel::Full
    } else {
        CapacityLevel::Unknown
    }
}

impl Default for CapacityLevel {
    fn default() -> (level: Self)
        ensures
            level == CapacityLevel::Unknown,
    {
        Self::Unknown
    }
}

impl From<&str> for CapacityLevel {
    fn from(s: &str) -> (level: Self) {
        let chars = to_chars(s);
        if is_word(&chars, "Critical") {
            Self::Critical
        } else if is_word(&chars, "Low") {
            Self::Low
        } else if is_word(&chars, "Normal") {
            Self::Normal
        } else if is_word(&chars, "High") {
            Self::High
        } else if is_word(&chars, "Full") {
            Self::Full
        } else {
            Self::Unknown
        }
    }
}

impl FromSpecImpl<&str> for CapacityLevel {
    open spec fn obeys_from_spec() -> bool {
        true
    }

    open spec fn from_spec(s: &str) -> Self {
        spec_capacity_level(s@)
    }
}

/// One power supply.
#[derive(Debug, Clone, PartialEq, Eq)]
pub struct PowerSupply {
    pub name: String,
    pub manufacturer: String,
    pub model_name: String,
    pub serial_number: String,
    pub technology: Technology,
    pub type_: Type,
    pub status: Status,
    pub present: bool,
    pub cycle_count: i32,
    pub voltage_min_design: i32,
    pub voltage_now: i32,
    pub current_now: i32,
    pub charge_full_design: i32,
    pub charge_full: i32,
    pub charge_now: i32,
    pub capacity: u8,
    pub capacity_level: CapacityLevel,
    pub alarm: u8,
    pub charge_control_end_threshold: u8,
    pub charge_control_start_threshold: u8,
}

/// A power supply, with its text fields as sequences of characters.
pub struct PowerSupplyView {
    pub name: Seq<char>,
    pub manufacturer: Seq<char>,
    pub model_name: Seq<char>,
    pub serial_number: Seq<char>,
    pub technology: Technology,
    pub type_: Type,
    pub status: Status,
    pub present: bool,
    pub cycle_count: i32,
    pub voltage_min_design: i32,
    pub voltage_now: i32,
    pub current_now: i32,
    pub charge_full_design: i32,
    pub charge_full: i32,
    pub charge_now: i32,
    pub capacity: u8,
    pub capacity_level: CapacityLevel,
    pub alarm: u8,
    pub charge_control_end_threshold: u8,
    pub charge_control_start_threshold: u8,
}

impl View for PowerSupply {
    type V = PowerSupplyView;

    open spec fn view(&self) -> PowerSupplyView {
        PowerSupplyView {
            name: self.name@,
            manufacturer: self.manufacturer@,
            model_name: self.model_name@,
            serial_number: self.serial_number@,
            technology: self.technology,
            type_: self.type_,
            status: self.status,
            present: self.present,
            cycle_count: self.cycle_count,
            voltage_min_design: self.voltage_min_design,
            voltage_now: self.voltage_now,
            current_now: self.current_now,
            charge_full_design: self.charge_full_design,
            charge_full: self.charge_full,
            charge_now: self.charge_now,
            capacity: self.capacity,
            capacity_level: self.capacity_level,
            alarm: self.alarm,
            charge_control_end_threshold: self.charge_control_end_threshold,
            charge_control_start_threshold: self.charge_control_start_threshold,
        }
    }
}

/// The power supply of which nothing is known: every text empty, every number
/// zero, every enumeration `Unknown`, and not present.
pub open spec fn spec_default() -> PowerSupplyView {
    PowerSupplyView {
        name: Seq::empty(),
        manufacturer: Seq::empty(),
        model_name: Seq::empty(),
        serial_number: Seq::empty(),
        technology: Technology::Unknown,
        type_: Type::Unknown,
        status: Status::Unknown,
        present: false,
        cycle_count: 0,
        voltage_min_design: 0,
        voltage_now: 0,
        current_now: 0,
        charge_full_design: 0,
        charge_full: 0,
        charge_now: 0,
        capacity: 0,
        capacity_level: CapacityLevel::Unknown,
        alarm: 0,
        charge_control_end_threshold: 0,
        charge_control_start_threshold: 0,
    }
}

impl Default for PowerSupply {
    fn default() -> (ps: Self)
        ensures
            ps@ == spec_default(),
    {
        PowerSupply {
            name: String::new(),
            manufacturer: String::new(),
            model_name: String::new(),
            serial_number: String::new(),
            technology: Technology::Unknown,
            type_: Type::Unknown,
            status: Status::Unknown,
            present: false,
            cycle_count: 0,
            voltage_min_design: 0,
            voltage_now: 0,
            current_now: 0,
            charge_full_design: 0,
            charge_full: 0,
            charge_now: 0,
            capacity: 0,
            capacity_level: CapacityLevel::Unknown,
            alarm: 0,
            charge_control_end_threshold: 0,
            charge_control_start_threshold: 0,
        }
    }
}

/// The fields that a key of the attribute block can set.
#[derive(Debug, Clone, Copy, PartialEq, Eq, Structural)]
pub enum Field {
    Name,
    Type,
    Status,
    Present,
    Technology,
    CycleCount,
    VoltageMinDesign,
    VoltageNow,
    CurrentNow,
    ChargeFullDesign,
    ChargeFull,
    ChargeNow,
    Capacity,
    CapacityLevel,
    ModelName,
    Manufacturer,
    SerialNumber,
}

/// The field that `key` sets, if the key is known. Keys are held against the
/// table as they are, with no folding of case.
pub open spec fn spec_field(key: Seq<char>) -> Option<Field> {
    if key == "NAME"@ {
        Some(Field::Name)
    } else if key == "TYPE"@ {
        Some(Field::Type)
    } else if key == "STATUS"@ {
        Some(Field::Status)
    } else if key == "PRESENT"@ {
        Some(Field::Present)
    } else if key == "TECHNOLOGY"@ {
        Some(Field::Technology)
    } else if key == "CYCLE_COUNT"@ {
        Some(Field::CycleCount)
    } else if key == "VOLTAGE_MIN_DESIGN"@ {
        Some(Field::VoltageMinDesign)
    } else if key == "VOLTAGE_NOW"@ {
        Some(Field::VoltageNow)
    } else if key == "CURRENT_NOW"@ {
        Some(Field::CurrentNow)
    } else if key == "CHARGE_FULL_DESIGN"@ {
        Some(Field::ChargeFullDesign)
    } else if key == "CHARGE_FULL"@ {
        Some(Field::ChargeFull)
    } else if key == "CHARGE_NOW"@ {
        Some(Field::ChargeNow)
    } else if key == "CAPACITY"@ {
        Some(Field::Capacity)
    } else if key == "CAPACITY_LEVEL"@ {
        Some(Field::CapacityLevel)
    } else if key == "MODEL_NAME"@ {
        Some(Field::ModelName)
    } else if key == "MANUFACTURER"@ {
        Some(Field::Manufacturer)
    } else if key == "SERIAL_NUMBER"@ {
        Some(Field::SerialNumber)
    } else {
        None
    }
}

/// The field that `key` sets, if the key is known.
pub fn field(key: &str) -> (f: Option<Field>)
    ensures
        f == spec_field(key@),
{
    let chars = to_chars(key);
    if is_word(&chars, "NAME") {
        Some(Field::Name)
    } else if is_word(&chars, "TYPE") {
        Some(Field::Type)
    } else if is_word(&chars, "STATUS") {
        Some(Field::Status)
    } else if is_word(&chars, "PRESENT") {
        Some(Field::Present)
    } else if is_word(&chars, "TECHNOLOGY") {
        Some(Field::Technology)
    } else if is_word(&chars, "CYCLE_COUNT") {
        Some(Field::CycleCount)
    } else if is_word(&chars, "VOLTAGE_MIN_DESIGN") {
        Some(Field::VoltageMinDesign)
    } else if is_word(&chars, "VOLTAGE_NOW") {
        Some(Field::VoltageNow)
    } else if is_word(&chars, "CURRENT_NOW") {
        Some(Field::CurrentNow)
    } else if is_word(&chars, "CHARGE_FULL_DESIGN") {
        Some(Field::ChargeFullDesign)
    } else if is_word(&chars, "CHARGE_FULL") {
        Some(Field::ChargeFull)
    } else if is_word(&chars, "CHARGE_NOW") {
        Some(Field::ChargeNow)
    } else if is_word(&chars, "CAPACITY") {
        Some(Field::Capacity)
    } else if is_word(&chars, "CAPACITY_LEVEL") {
        Some(Field::CapacityLevel)
    } else if is_word(&chars, "MODEL_NAME") {
        Some(Field::ModelName)
    } else if is_word(&chars, "MANUFACTURER") {
        Some(Field::Manufacturer)
    } else if is_word(&chars, "SERIAL_NUMBER") {
        Some(Field::SerialNumber)
    } else {
        None
    }
}

/// What is wrong with a number field whose value is no number. The reason
/// names the field.
pub open spec fn spec_reason(field: Field) -> &'static str {
    match field {
        Field::CycleCount => "Failed to parse cycle count",
        Field::VoltageMinDesign => "Failed to parse voltage_min_design",
        Field::VoltageNow => "Failed to parse voltage_now",
        Field::CurrentNow => "Failed to parse current_now",
        Field::ChargeFullDesign => "Failed to parse charge_full_design",
        Field::ChargeFull => "Failed to parse charge_full",
        Field::ChargeNow => "Failed to parse charge_now",
        Field::Capacity => "Failed to parse capacity",
        _ => "",
    }
}

/// What is wrong with a number field whose value is no number.
fn reason(field: Field) -> (text: &'static str)
    ensures
        text == spec_reason(field),
{
    match field {
        Field::CycleCount => "Failed to parse cycle count",
        Field::VoltageMinDesign => "Failed to parse voltage_min_design",
        Field::VoltageNow => "Failed to parse voltage_now",
        Field::CurrentNow => "Failed to parse current_now",
        Field::ChargeFullDesign => "Failed to parse charge_full_design",
        Field::ChargeFull => "Failed to parse charge_full",
        Field::ChargeNow => "Failed to parse charge_now",
        Field::Capacity => "Failed to parse capacity",
        _ => "",
    }
}

/// Whether `value` cannot be read into `field`: the field holds a number, and
/// the value is no decimal number of its type. Text, flags and enumerations
/// take any value.
pub open spec fn spec_malformed(field: Field, value: Seq<char>) -> bool {
    match field {
        Field::CycleCount
        | Field::VoltageMinDesign
        | Field::VoltageNow
        | Field::CurrentNow
        | Field::ChargeFullDesign
        | Field::ChargeFull
        | Field::ChargeNow => spec_parse_i32(value) is None,
        Field::Capacity => spec_parse_u8(value) is None,
        _ => false,
    }
}

/// `ps` with `field` set from `value`, or the failure that names the field if
/// the value cannot be read into it. The supply is present exactly when the
/// value is `1`.
pub open spec fn spec_set(ps: PowerSupplyView, field: Field, value: Seq<char>) -> Result<
    PowerSupplyView,
    Error,
> {
    if spec_malformed(field, value) {
        Err(Error::ParseFile(FILE, spec_reason(field)))
    } else {
        Ok(
            match field {
                Field::Name => PowerSupplyView { name: value, ..ps },
                Field::Type => PowerSupplyView { type_: spec_type(value), ..ps },
                Field::Status => PowerSupplyView { status: spec_status(value), ..ps },
                Field::Present => PowerSupplyView { present: value == "1"@, ..ps },
                Field::Technology => PowerSupplyView { technology: spec_technology(value), ..ps },
                Field::CycleCount => PowerSupplyView { cycle_count: spec_parse_i32(value)->0, ..ps },
                Field::VoltageMinDesign => PowerSupplyView {
                    voltage_min_design: spec_parse_i32(value)->0,
                    ..ps
                },
                Field::VoltageNow => PowerSupplyView { voltage_now: spec_parse_i32(value)->0, ..ps },
                Field::CurrentNow => PowerSupplyView { current_now: spec_parse_i32(value)->0, ..ps },
                Field::ChargeFullDesign => PowerSupplyView {
                    charge_full_design: spec_parse_i32(value)->0,
                    ..ps
                },
                Field::ChargeFull => PowerSupplyView { charge_full: spec_parse_i32(value)->0, ..ps },
                Field::ChargeNow => PowerSupplyView { charge_now: spec_parse_i32(value)->0, ..ps },
                Field::Capacity => PowerSupplyView { capacity: spec_parse_u8(value)->0, ..ps },
                Field::CapacityLevel => PowerSupplyView {
                    capacity_level: spec_capacity_level(value),
                    ..ps
                },
                Field::ModelName => PowerSupplyView { model_name: value, ..ps },
                Field::Manufacturer => PowerSupplyView { manufacturer: value, ..ps },
                Field::SerialNumber => PowerSupplyView { serial_number: value, ..ps },
            },
        )
    }
}

/// `ps` after the fact `key=value`: a known key sets its field, an unknown one
/// changes nothing.
pub open spec fn spec_assign(ps: PowerSupplyView, key: Seq<char>, value: Seq<char>) -> Result<
    PowerSupplyView,
    Error,
> {
    match spec_field(key) {
        Some(field) => spec_set(ps, field, value),
        None => Ok(ps),
    }
}

/// `ps` after the facts `attributes`, taken in order; the first fact that
/// fails ends it.
pub open spec fn spec_apply(ps: PowerSupplyView, attributes: Seq<(Seq<char>, Seq<char>)>) -> Result<
    PowerSupplyView,
    Error,
>
    decreases attributes.len(),
{
    if attributes.len() == 0 {
        Ok(ps)
    } else {
        match spec_apply(ps, attributes.drop_last()) {
            Ok(before) => spec_assign(before, attributes.last().0, attributes.last().1),
            Err(e) => Err(e),
        }
    }
}

/// Sets `field` of `ps` from `value`.
fn set(ps: PowerSupply, field: Field, value: &str) -> (r: Result<PowerSupply, Error>)
    ensures
        match r {
            Ok(next) => spec_set(ps@, field, value@) == Ok::<PowerSupplyView, Error>(next@),
            Err(e) => spec_set(ps@, field, value@) == Err::<PowerSupplyView, Error>(e),
        },
{
    let mut ps = ps;
    match field {
        Field::Name => {
            ps.name = value.to_owned();
        },
        Field::Type => {
            ps.type_ = Type::from(value);
        },
        Field::Status => {
            ps.status = Status::from(value);
        },
        Field::Present => {
            ps.present = str_eq(value, "1");
        },
        Field::Technology => {
            ps.technology = Technology::from(value);
        },
        Field::CapacityLevel => {
            ps.capacity_level = CapacityLevel::from(value);
        },
        Field::ModelName => {
            ps.model_name = value.to_owned();
        },
        Field::Manufacturer => {
            ps.manufacturer = value.to_owned();
        },
        Field::SerialNumber => {
            ps.serial_number = value.to_owned();
        },
        Field::Capacity => {
            match parse_u8(value) {
                Some(n) => {
                    ps.capacity = n;
                },
                None => {
                    return Err(Error::ParseFile(FILE, reason(field)));
                },
            }
        },
        _ => {
            let n = match parse_i32(value) {
                Some(n) => n,
                None => {
                    return Err(Error::ParseFile(FILE, reason(field)));
                },
            };
            match field {
                Field::CycleCount => {
                    ps.cycle_count = n;
                },
                Field::VoltageMinDesign => {
                    ps.voltage_min_design = n;
                },
                Field::VoltageNow => {
                    ps.voltage_now = n;
                },
                Field::CurrentNow => {
                    ps.current_now = n;
                },
                Field::ChargeFullDesign => {
                    ps.charge_full_design = n;
                },
                Field::ChargeFull => {
                    ps.charge_full = n;
                },
                _ => {
                    ps.charge_now = n;
                },
            }
        },
    }
    Ok(ps)
}

/// What was read of one directory under `DIR`.
#[derive(Debug, Clone, PartialEq, Eq)]
pub struct SupplyDir {
    /// The name of the directory, such as `BAT0`.
    pub name: String,
    /// The text of its file `uevent`.
    pub uevent: String,
    /// The text of its file `alarm`, if it could be read.
    pub alarm: Option<String>,
    /// The text of its file `charge_control_end_threshold`, if it could be read.
    pub charge_control_end_threshold: Option<String>,
    /// The text of its file `charge_control_start_threshold`, if it could be
    /// read.
    pub charge_control_start_threshold: Option<String>,
}

/// What was read of a directory, as sequences of characters.
pub struct SupplyDirView {
    pub name: Seq<char>,
    pub uevent: Seq<char>,
    pub alarm: Option<Seq<char>>,
    pub charge_control_end_threshold: Option<Seq<char>>,
    pub charge_control_start_threshold: Option<Seq<char>>,
}

/// The characters of a text that may be absent.
pub open spec fn spec_text(file: Option<String>) -> Option<Seq<char>> {
    match file {
        Some(text) => Some(text@),
        None => None,
    }
}

impl View for SupplyDir {
    type V = SupplyDirView;

    open spec fn view(&self) -> SupplyDirView {
        SupplyDirView {
            name: self.name@,
            uevent: self.uevent@,
            alarm: spec_text(self.alarm),
            charge_control_end_threshold: spec_text(self.charge_control_end_threshold),
            charge_control_start_threshold: spec_text(self.charge_control_start_threshold),
        }
    }
}

/// The number that a file of one number holds. An absent file keeps `current`.
/// A file that is there holds a decimal `u8`, surrounded by whitespace at
/// most, or it fails under the name `file`.
pub open spec fn spec_scalar(content: Option<Seq<char>>, file: &'static str, current: u8) -> Result<
    u8,
    Error,
> {
    match content {
        None => Ok(current),
        Some(text) => match spec_parse_u8(spec_trim(text)) {
            Some(n) => Ok(n),
            None => Err(Error::ParseFile(file, "")),
        },
    }
}

/// The number that a file of one number holds.
pub fn scalar(content: &Option<String>, file: &'static str, current: u8) -> (r: Result<u8, Error>)
    ensures
        r == spec_scalar(spec_text(*content), file, current),
{
    match content {
        None => Ok(current),
        Some(text) => {
            let inner = trimmed(text.as_str());
            match parse_u8(inner.as_str()) {
                Some(n) => Ok(n),
                None => Err(Error::ParseFile(file, "")),
            }
        },
    }
}

/// The power supply that a directory describes: the defaults, then the facts
/// of its attribute block in order, then the three files of one number; or the
/// first failure on that way.
pub open spec fn spec_read_detail(dir: SupplyDirView) -> Result<PowerSupplyView, Error> {
    match spec_apply(spec_default(), spec_parse_attributes(dir.uevent, PREFIX@)) {
        Err(e) => Err(e),
        Ok(ps) => match spec_scalar(dir.alarm, ALARM_FILE, ps.alarm) {
            Err(e) => Err(e),
            Ok(alarm) => match spec_scalar(
                dir.charge_control_end_threshold,
                END_THRESHOLD_FILE,
                ps.charge_control_end_threshold,
            ) {
                Err(e) => Err(e),
                Ok(end) => match spec_scalar(
                    dir.charge_control_start_threshold,
                    START_THRESHOLD_FILE,
                    ps.charge_control_start_threshold,
                ) {
                    Err(e) => Err(e),
                    Ok(start) => Ok(
                        PowerSupplyView {
                            alarm,
                            charge_control_end_threshold: end,
                            charge_control_start_threshold: start,
                            ..ps
                        },
                    ),
                },
            },
        },
    }
}

/// A failure among the first `k` facts is the failure of the whole block.
pub proof fn lemma_apply_fails(
    ps: PowerSupplyView,
    attributes: Seq<(Seq<char>, Seq<char>)>,
    k: int,
)
    requires
        0 <= k <= attributes.len(),
        spec_apply(ps, attributes.take(k)) is Err,
    ensures
        spec_apply(ps, attributes) == spec_apply(ps, attributes.take(k)),
    decreases attributes.len(),
{
    if k == attributes.len() {
        assert(attributes.take(k) =~= attributes);
    } else {
        assert(attributes.drop_last().take(k) =~= attributes.take(k));
        lemma_apply_fails(ps, attributes.drop_last(), k);
    }
}

/// A block in which no key is known leaves the record as it was: unknown keys
/// are no failure and set nothing.
pub proof fn lemma_unknown_keys_change_nothing(
    ps: PowerSupplyView,
    attributes: Seq<(Seq<char>, Seq<char>)>,
)
    requires
        forall|i: int| 0 <= i < attributes.len() ==> spec_field((#[trigger] attributes[i]).0) is None,
    ensures
        spec_apply(ps, attributes) == Ok::<PowerSupplyView, Error>(ps),
    decreases attributes.len(),
{
    if attributes.len() > 0 {
        assert forall|i: int| 0 <= i < attributes.drop_last().len() implies spec_field(
            (#[trigger] attributes.drop_last()[i]).0,
        ) is None by {
            assert(attributes.drop_last()[i] == attributes[i]);
        }
        lemma_unknown_keys_change_nothing(ps, attributes.drop_last());
        assert(spec_field(attributes[attributes.len() - 1].0) is None);
    }
}

/// A directory whose attribute block states only facts with unknown keys, and
/// whose three files of one number are absent, gives the power supply of
/// which nothing is known, and no failure.
pub proof fn lemma_unknown_keys_give_default(dir: SupplyDirView)
    requires
        forall|i: int|
            0 <= i < spec_parse_attributes(dir.uevent, PREFIX@).len() ==> spec_field(
                (#[trigger] spec_parse_attributes(dir.uevent, PREFIX@)[i]).0,
            ) is None,
        dir.alarm is None,
        dir.charge_control_end_threshold is None,
        dir.charge_control_start_threshold is None,
    ensures
        spec_read_detail(dir) == Ok::<PowerSupplyView, Error>(spec_default()),
{
    lemma_unknown_keys_change_nothing(spec_default(), spec_parse_attributes(dir.uevent, PREFIX@));
}

/// A known number key with a value that is no number fails the block, and the
/// failure names that key's field: the fact at `i` is the first that cannot
/// be read, so the block fails with the reason of its field.
pub proof fn lemma_malformed_number_fails(
    ps: PowerSupplyView,
    attributes: Seq<(Seq<char>, Seq<char>)>,
    i: int,
)
    requires
        0 <= i < attributes.len(),
        spec_field(attributes[i].0) matches Some(field) && spec_malformed(field, attributes[i].1),
        forall|j: int|
            0 <= j < i ==> !(spec_field((#[trigger] attributes[j]).0) matches Some(field)
                && spec_malformed(field, attributes[j].1)),
    ensures
        spec_apply(ps, attributes) == Err::<PowerSupplyView, Error>(
            Error::ParseFile(FILE, spec_reason(spec_field(attributes[i].0)->0)),
        ),
{
    lemma_readable_facts_apply(ps, attributes.take(i));
    assert(attributes.take(i + 1).drop_last() =~= attributes.take(i));
    assert(attributes.take(i + 1).last() == attributes[i]);
    lemma_apply_fails(ps, attributes, i + 1);
}

/// A block fails only on a fact that cannot be read: where every fact can be,
/// every fact is applied.
pub proof fn lemma_readable_facts_apply(
    ps: PowerSupplyView,
    attributes: Seq<(Seq<char>, Seq<char>)>,
)
    requires
        forall|j: int|
            0 <= j < attributes.len() ==> !(spec_field((#[trigger] attributes[j]).0) matches Some(
                field,
            ) && spec_malformed(field, attributes[j].1)),
    ensures
        spec_apply(ps, attributes) is Ok,
    decreases attributes.len(),
{
    if attributes.len() > 0 {
        assert forall|j: int| 0 <= j < attributes.drop_last().len() implies !(spec_field(
            (#[trigger] attributes.drop_last()[j]).0,
        ) matches Some(field) && spec_malformed(field, attributes.drop_last()[j].1)) by {
            assert(attributes.drop_last()[j] == attributes[j]);
        }
        lemma_readable_facts_apply(ps, attributes.drop_last());
        let last = attributes[attributes.len() - 1];
        assert(!(spec_field(last.0) matches Some(field) && spec_malformed(field, last.1)));
    }
}

/// Reads one power supply from what was read of its directory.
///
/// Starts from the defaults. Each line `POWER_SUPPLY_KEY=value` of the block
/// with a known key sets that key's field; other lines are passed over. Then
/// each of the three files of one number, where it is there, sets its field.
///
/// Fails if and only if a number is there and cannot be read: the value of a
/// known number key, with the failure naming the field, or the content of a
/// file of one number, with the failure naming the file. The first such
/// failure is returned. An absent key or file is no failure: its field keeps
/// the default.
pub fn read_detail(dir: &SupplyDir) -> (r: Result<PowerSupply, Error>)
    ensures
        outcome_of(r) == spec_read_detail(dir@),
{
    let attributes = parse_attributes(dir.uevent.as_str(), Some(PREFIX));
    let ghost facts = views(attributes@);
    let mut ps = PowerSupply::default();
    let mut i: usize = 0;
    proof {
        assert(facts.take(0) =~= Seq::<(Seq<char>, Seq<char>)>::empty());
    }
    while i < attributes.len()
        invariant
            i <= attributes.len(),
            facts == views(attributes@),
            facts == spec_parse_attributes(dir@.uevent, PREFIX@),
            spec_apply(spec_default(), facts.take(i as int)) == Ok::<PowerSupplyView, Error>(ps@),
        decreases attributes.len() - i,
    {
        proof {
            assert(facts.take(i + 1).drop_last() =~= facts.take(i as int));
            assert(facts.take(i + 1).last() == facts[i as int]);
            assert(facts[i as int] == attributes@[i as int]@);
        }
        match field(attributes[i].key.as_str()) {
            Some(f) => {
                match set(ps, f, attributes[i].value.as_str()) {
                    Ok(next) => {
                        ps = next;
                    },
                    Err(e) => {
                        proof {
                            lemma_apply_fails(spec_default(), facts, i + 1);
                        }
                        return Err(e);
                    },
                }
            },
            None => {},
        }
        i += 1;
    }
    proof {
        assert(facts.take(attributes.len() as int) =~= facts);
    }
    let alarm = scalar(&dir.alarm, ALARM_FILE, ps.alarm)?;
    let end = scalar(
        &dir.charge_control_end_threshold,
        END_THRESHOLD_FILE,
        ps.charge_control_end_threshold,
    )?;
    let start = scalar(
        &dir.charge_control_start_threshold,
        START_THRESHOLD_FILE,
        ps.charge_control_start_threshold,
    )?;
    ps.alarm = alarm;
    ps.charge_control_end_threshold = end;
    ps.charge_control_start_threshold = start;
    Ok(ps)
}

/// Whether a directory of this name is a battery: the name is ASCII and begins
/// with `BAT`.
pub open spec fn spec_is_battery(name: Seq<char>) -> bool {
    vstd::utf8::is_ascii_chars(name) && spec_starts_with(name, "BAT"@)
}

/// Whether a directory of this name is a battery.
pub fn is_battery(name: &str) -> (b: bool)
    ensures
        b == spec_is_battery(name@),
{
    if !name.is_ascii() {
        return false;
    }
    let chars = to_chars(name);
    let word = to_chars("BAT");
    starts_with(&chars, &word)
}

/// The batteries among the directories, in their order, each read as
/// `spec_read_detail` says; or the failure of the first battery that cannot
/// be read.
pub open spec fn spec_get_list(dirs: Seq<SupplyDirView>) -> Result<Seq<PowerSupplyView>, Error> {
    try_map(
        dirs.filter(|dir: SupplyDirView| spec_is_battery(dir.name)),
        |dir: SupplyDirView| spec_read_detail(dir),
    )
}

/// Reads the batteries among `dirs`, what was read of the directories under
/// `DIR`, in the order in which they were listed.
///
/// A directory whose name is not that of a battery is passed over unread. Each
/// battery gives exactly one record. One battery that cannot be read fails the
/// whole call, with the failure that `read_detail` gives for it.
pub fn get_list(dirs: &Vec<SupplyDir>) -> (r: Result<Vec<PowerSupply>, Error>)
    ensures
        outcome(r) == spec_get_list(views(dirs@)),
{
    let ghost all = views(dirs@);
    let ghost keep = |dir: SupplyDirView| spec_is_battery(dir.name);
    let ghost read = |dir: SupplyDirView| spec_read_detail(dir);
    let mut list: Vec<PowerSupply> = Vec::new();
    let mut i: usize = 0;
    proof {
        reveal(Seq::filter);
        assert(all.take(0) =~= Seq::<SupplyDirView>::empty());
        assert(views(list@) =~= Seq::<PowerSupplyView>::empty());
    }
    while i < dirs.len()
        invariant
            i <= dirs.len(),
            all == views(dirs@),
            keep == |dir: SupplyDirView| spec_is_battery(dir.name),
            read == |dir: SupplyDirView| spec_read_detail(dir),
            try_map(all.take(i as int).filter(keep), read) == Ok::<Seq<PowerSupplyView>, Error>(
                views(list@),
            ),
        decreases dirs.len() - i,
    {
        proof {
            lemma_filter_step(all, keep, i as int);
            assert(all[i as int] == dirs@[i as int]@);
            lemma_try_map_push(all.take(i as int).filter(keep), read, all[i as int]);
        }
        if is_battery(dirs[i].name.as_str()) {
            match read_detail(&dirs[i]) {
                Ok(ps) => {
                    proof {
                        lemma_views_push(list@, ps);
                    }
                    list.push(ps);
                },
                Err(e) => {
                    proof {
                        lemma_filter_prefix(all, keep, i + 1);
                        lemma_try_map_fails(
                            all.filter(keep),
                            read,
                            all.take(i + 1).filter(keep).len() as int,
                        );
                    }
                    return Err(e);
                },
            }
        }
        i += 1;
    }
    proof {
        assert(all.take(dirs.len() as int) =~= all);
    }
    Ok(list)
}

/// Whether `value` names no variant of the enumeration that `field` holds.
/// `Unknown` is a name like the others. A field that holds no enumeration
/// takes any value.
pub open spec fn spec_unnamed(field: Field, value: Seq<char>) -> bool {
    value != "Unknown"@ && match field {
        Field::Type => spec_type(value) == Type::Unknown,
        Field::Status => spec_status(value) == Status::Unknown,
        Field::Technology => spec_technology(value) == Technology::Unknown,
        Field::CapacityLevel => spec_capacity_level(value) == CapacityLevel::Unknown,
        _ => false,
    }
}

/// Whether `value` names no variant of the enumeration that `field` holds.
fn unnamed(field: Field, value: &str) -> (b: bool)
    ensures
        b == spec_unnamed(field, value@),
{
    if str_eq(value, "Unknown") {
        return false;
    }
    match field {
        Field::Type => Type::from(value) == Type::Unknown,
        Field::Status => Status::from(value) == Status::Unknown,
        Field::Technology => Technology::from(value) == Technology::Unknown,
        Field::CapacityLevel => CapacityLevel::from(value) == CapacityLevel::Unknown,
        _ => false,
    }
}

impl KeyTable for PowerSupply {
    open spec fn spec_source() -> &'static str {
        FILE
    }

    fn source() -> (name: &'static str) {
        FILE
    }

    open spec fn spec_notice(key: Seq<char>, value: Seq<char>, line: usize) -> Option<Diagnostic> {
        match spec_field(key) {
            None => Some(Diagnostic::UnknownKey(FILE, line)),
            Some(field) => if spec_unnamed(field, value) {
                Some(Diagnostic::UnknownValue(FILE, line))
            } else {
                None
            },
        }
    }

    fn notice(key: &str, value: &str, line: usize) -> (n: Option<Diagnostic>) {
        match field(key) {
            None => Some(Diagnostic::UnknownKey(FILE, line)),
            Some(f) => if unnamed(f, value) {
                Some(Diagnostic::UnknownValue(FILE, line))
            } else {
                None
            },
        }
    }
}

/// The notice that a file of one number is worth: one if it is absent.
pub open spec fn spec_missing(content: Option<Seq<char>>, file: &'static str) -> Seq<Diagnostic> {
    match content {
        Some(_) => Seq::empty(),
        None => seq![Diagnostic::MissingFile(file)],
    }
}

/// The notices that a directory is worth: those of its attribute block, in
/// the order of its lines, then one for each of the three files of one number
/// that is absent.
pub open spec fn spec_diagnostics(dir: SupplyDirView) -> Seq<Diagnostic> {
    spec_block_diagnostics::<PowerSupply>(dir.uevent, PREFIX@) + spec_missing(
        dir.alarm,
        ALARM_FILE,
    ) + spec_missing(dir.charge_control_end_threshold, END_THRESHOLD_FILE) + spec_missing(
        dir.charge_control_start_threshold,
        START_THRESHOLD_FILE,
    )
}

/// Appends the notice that a file of one number is worth.
fn note_missing(notices: &mut Vec<Diagnostic>, content: &Option<String>, file: &'static str)
    ensures
        final(notices)@ == old(notices)@ + spec_missing(spec_text(*content), file),
{
    if content.is_none() {
        notices.push(Diagnostic::MissingFile(file));
        assert(notices@ =~= old(notices)@ + seq![Diagnostic::MissingFile(file)]);
    } else {
        assert(notices@ =~= old(notices)@ + Seq::<Diagnostic>::empty());
    }
}

/// Lists what `read_detail` passes over or leaves at its default in `dir`:
/// each line of the attribute block that states no fact, each fact with an
/// unknown key, each enumeration value that names no variant, and each of the
/// three files of one number that is absent. A number that cannot be read is
/// no notice but a failure of `read_detail`.
pub fn diagnostics(dir: &SupplyDir) -> (notices: Vec<Diagnostic>)
    ensures
        notices@ == spec_diagnostics(dir@),
{
    let mut notices = block_diagnostics::<PowerSupply>(dir.uevent.as_str(), Some(PREFIX));
    note_missing(&mut notices, &dir.alarm, ALARM_FILE);
    note_missing(&mut notices, &dir.charge_control_end_threshold, END_THRESHOLD_FILE);
    note_missing(&mut notices, &dir.charge_control_start_threshold, START_THRESHOLD_FILE);
    notices
}

/// Reading is a function of what was read of the directory alone: two
/// readings of one directory, each as `read_detail` gives it, come to the same
/// record, field by field, or to the same failure.
pub proof fn lemma_read_detail_twice(
    dir: SupplyDirView,
    first: Result<PowerSupply, Error>,
    second: Result<PowerSupply, Error>,
)
    requires
        outcome_of(first) == spec_read_detail(dir),
        outcome_of(second) == spec_read_detail(dir),
    ensures
        outcome_of(first) == outcome_of(second),
        first is Ok ==> second is Ok && first->Ok_0@ == second->Ok_0@,
        first is Err ==> second is Err && first->Err_0 == second->Err_0,
{
}

} // verus!
