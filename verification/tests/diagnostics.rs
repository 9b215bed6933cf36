use hostinfo::base::attribute::block_diagnostics;
use hostinfo::device::power_supply::{self, PowerSupply, Status, SupplyDir};
use hostinfo::device::usb::{self, UdevKeys, UeventKeys, UsbDir};
use hostinfo::error::Diagnostic;

const UEVENT: &str = "power_supply/uevent";

#[test]
fn charging_supply_with_one_absent_file_gives_one_notice() {
    let dir = SupplyDir {
        name: "BAT0".to_string(),
        uevent: "POWER_SUPPLY_STATUS=Charging\n".to_string(),
        alarm: None,
        charge_control_end_threshold: Some("80\n".to_string()),
        charge_control_start_threshold: Some("75\n".to_string()),
    };
    let ps = power_supply::read_detail(&dir).unwrap();
    assert_eq!(ps.status, Status::Charging);
    assert_eq!(ps.capacity, 0);
    assert_eq!(
        power_supply::diagnostics(&dir),
        vec![Diagnostic::MissingFile("power_supply/alarm")]
    );
}

#[test]
fn power_supply_notices_in_order() {
    let dir = SupplyDir {
        name: "BAT0".to_string(),
        uevent: "DEVTYPE=power_supply\nPOWER_SUPPLY_NAME=BAT0\nPOWER_SUPPLY_COLOR=red\nPOWER_SUPPLY_TYPE=Fusion\nPOWER_SUPPLY_STATUS=Unknown\nPOWER_SUPPLY_NOTHING\n\nPOWER_SUPPLY_TECHNOLOGY=Li-ion\nPOWER_SUPPLY_CAPACITY_LEVEL=full\n".to_string(),
        alarm: None,
        charge_control_end_threshold: None,
        charge_control_start_threshold: None,
    };
    assert_eq!(
        power_supply::diagnostics(&dir),
        vec![
            Diagnostic::SkippedLine(UEVENT, 0),
            Diagnostic::UnknownKey(UEVENT, 2),
            Diagnostic::UnknownValue(UEVENT, 3),
            Diagnostic::SkippedLine(UEVENT, 5),
            Diagnostic::SkippedLine(UEVENT, 6),
            Diagnostic::UnknownValue(UEVENT, 8),
            Diagnostic::MissingFile("power_supply/alarm"),
            Diagnostic::MissingFile("power_supply/charge_control_end_threshold"),
            Diagnostic::MissingFile("power_supply/charge_control_start_threshold"),
        ]
    );
    assert!(power_supply::read_detail(&dir).is_ok());
}

#[test]
fn malformed_number_is_no_notice() {
    let dir = SupplyDir {
        name: "BAT0".to_string(),
        uevent: "POWER_SUPPLY_CAPACITY=abc\n".to_string(),
        alarm: Some("x".to_string()),
        charge_control_end_threshold: Some(String::new()),
        charge_control_start_threshold: Some("1".to_string()),
    };
    assert_eq!(power_supply::diagnostics(&dir), Vec::new());
    assert!(power_supply::read_detail(&dir).is_err());
}

#[test]
fn usb_notices_in_order() {
    let dir = UsbDir {
        path: "/sys/bus/usb/devices/1-1".to_string(),
        max_power: Some("100mA".to_string()),
        manufacturer: None,
        product: Some("Mouse".to_string()),
        speed: None,
        version: None,
        uevent: "MAJOR=189\nDRIVER=usb\nbare\n".to_string(),
        udev: "I:1\nE:ID_BUS=usb\nE:COLOR=red\n".to_string(),
    };
    assert_eq!(
        usb::diagnostics(&dir),
        vec![
            Diagnostic::MissingFile("manufacturer"),
            Diagnostic::MissingFile("speed"),
            Diagnostic::MissingFile("version"),
            Diagnostic::UnknownKey("usb uevent", 1),
            Diagnostic::SkippedLine("usb uevent", 2),
            Diagnostic::SkippedLine("usb udev", 0),
            Diagnostic::UnknownKey("usb udev", 2),
        ]
    );
}

#[test]
fn block_notices_by_key_table() {
    assert_eq!(
        block_diagnostics::<PowerSupply>("POWER_SUPPLY_NAME=x\nNAME=x\n", Some("POWER_SUPPLY_")),
        vec![Diagnostic::SkippedLine(UEVENT, 1)]
    );
    assert_eq!(
        block_diagnostics::<UeventKeys>("MAJOR=1\nID_BUS=usb\n", None),
        vec![Diagnostic::UnknownKey("usb uevent", 1)]
    );
    assert_eq!(
        block_diagnostics::<UdevKeys>("E:MAJOR=1\nE:ID_BUS=usb\n", Some("E:")),
        vec![Diagnostic::UnknownKey("usb udev", 0)]
    );
    assert_eq!(block_diagnostics::<UdevKeys>("", Some("E:")), Vec::new());
}
