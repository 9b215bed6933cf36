use hostinfo::device::power_supply::{
    get_list, is_battery, read_detail, CapacityLevel, PowerSupply, Status, SupplyDir, Technology,
    Type,
};
use hostinfo::error::Error;

fn dir(name: &str, uevent: &str) -> SupplyDir {
    SupplyDir {
        name: name.to_string(),
        uevent: uevent.to_string(),
        alarm: None,
        charge_control_end_threshold: None,
        charge_control_start_threshold: None,
    }
}

#[test]
fn status_without_capacity_keeps_the_default_capacity() {
    let ps = read_detail(&dir("BAT0", "POWER_SUPPLY_STATUS=Charging\n")).unwrap();
    assert_eq!(ps.status, Status::Charging);
    assert_eq!(ps.capacity, 0);
    let mut expected = PowerSupply::default();
    expected.status = Status::Charging;
    assert_eq!(ps, expected);
}

#[test]
fn unknown_keys_give_the_default_record() {
    let text = "POWER_SUPPLY_FOO=1\nPOWER_SUPPLY_BAR=x\nname=BAT0\nnothing here\n";
    assert_eq!(read_detail(&dir("BAT0", text)), Ok(PowerSupply::default()));
    assert_eq!(read_detail(&dir("BAT0", "")), Ok(PowerSupply::default()));
}

#[test]
fn full_block_sets_every_field() {
    let text = "POWER_SUPPLY_NAME=BAT0\nPOWER_SUPPLY_TYPE=Battery\nPOWER_SUPPLY_STATUS=Not charging\nPOWER_SUPPLY_PRESENT=1\nPOWER_SUPPLY_TECHNOLOGY=Li-ion\nPOWER_SUPPLY_CYCLE_COUNT=12\nPOWER_SUPPLY_VOLTAGE_MIN_DESIGN=11400000\nPOWER_SUPPLY_VOLTAGE_NOW=12000000\nPOWER_SUPPLY_CURRENT_NOW=-5\nPOWER_SUPPLY_CHARGE_FULL_DESIGN=4000\nPOWER_SUPPLY_CHARGE_FULL=3900\nPOWER_SUPPLY_CHARGE_NOW=2000\nPOWER_SUPPLY_CAPACITY= 51 \nPOWER_SUPPLY_CAPACITY_LEVEL=Normal\nPOWER_SUPPLY_MODEL_NAME=X=Y\nPOWER_SUPPLY_MANUFACTURER=ACME\nPOWER_SUPPLY_SERIAL_NUMBER= 123\n";
    let mut d = dir("BAT0", text);
    d.alarm = Some("7\n".to_string());
    d.charge_control_end_threshold = Some(" 80 ".to_string());
    d.charge_control_start_threshold = Some("75".to_string());
    let ps = read_detail(&d).unwrap();
    assert_eq!(
        ps,
        PowerSupply {
            name: "BAT0".to_string(),
            manufacturer: "ACME".to_string(),
            model_name: "X=Y".to_string(),
            serial_number: "123".to_string(),
            technology: Technology::LiIon,
            type_: Type::Battery,
            status: Status::NotCharging,
            present: true,
            cycle_count: 12,
            voltage_min_design: 11400000,
            voltage_now: 12000000,
            current_now: -5,
            charge_full_design: 4000,
            charge_full: 3900,
            charge_now: 2000,
            capacity: 51,
            capacity_level: CapacityLevel::Normal,
            alarm: 7,
            charge_control_end_threshold: 80,
            charge_control_start_threshold: 75,
        }
    );
}

#[test]
fn malformed_number_names_its_field() {
    let cases = [
        ("CYCLE_COUNT", "Failed to parse cycle count"),
        ("VOLTAGE_MIN_DESIGN", "Failed to parse voltage_min_design"),
        ("VOLTAGE_NOW", "Failed to parse voltage_now"),
        ("CURRENT_NOW", "Failed to parse current_now"),
        ("CHARGE_FULL_DESIGN", "Failed to parse charge_full_design"),
        ("CHARGE_FULL", "Failed to parse charge_full"),
        ("CHARGE_NOW", "Failed to parse charge_now"),
        ("CAPACITY", "Failed to parse capacity"),
    ];
    for (key, reason) in cases {
        let text = format!("POWER_SUPPLY_NAME=BAT0\nPOWER_SUPPLY_{}=abc\n", key);
        assert_eq!(
            read_detail(&dir("BAT0", &text)),
            Err(Error::ParseFile("power_supply/uevent", reason))
        );
    }
    assert_eq!(
        read_detail(&dir("BAT0", "POWER_SUPPLY_CAPACITY=256\n")),
        Err(Error::ParseFile("power_supply/uevent", "Failed to parse capacity"))
    );
    assert_eq!(
        read_detail(&dir("BAT0", "POWER_SUPPLY_CAPACITY=-1\n")),
        Err(Error::ParseFile("power_supply/uevent", "Failed to parse capacity"))
    );
}

#[test]
fn first_malformed_number_wins() {
    let text = "POWER_SUPPLY_CHARGE_NOW=x\nPOWER_SUPPLY_CAPACITY=y\n";
    assert_eq!(
        read_detail(&dir("BAT0", text)),
        Err(Error::ParseFile("power_supply/uevent", "Failed to parse charge_now"))
    );
}

#[test]
fn present_is_true_only_for_one() {
    assert!(read_detail(&dir("BAT0", "POWER_SUPPLY_PRESENT=1")).unwrap().present);
    assert!(!read_detail(&dir("BAT0", "POWER_SUPPLY_PRESENT=true")).unwrap().present);
    assert!(!read_detail(&dir("BAT0", "POWER_SUPPLY_PRESENT=01")).unwrap().present);
    assert!(!read_detail(&dir("BAT0", "POWER_SUPPLY_PRESENT=0")).unwrap().present);
}

#[test]
fn scalar_files_absent_or_malformed() {
    let mut d = dir("BAT0", "");
    d.alarm = Some("x".to_string());
    assert_eq!(read_detail(&d), Err(Error::ParseFile("power_supply/alarm", "")));
    let mut d = dir("BAT0", "");
    d.charge_control_end_threshold = Some("".to_string());
    assert_eq!(
        read_detail(&d),
        Err(Error::ParseFile("power_supply/charge_control_end_threshold", ""))
    );
    let mut d = dir("BAT0", "");
    d.charge_control_start_threshold = Some("300".to_string());
    assert_eq!(
        read_detail(&d),
        Err(Error::ParseFile("power_supply/charge_control_start_threshold", ""))
    );
    let mut d = dir("BAT0", "");
    d.charge_control_start_threshold = Some("30\n".to_string());
    assert_eq!(read_detail(&d).unwrap().charge_control_start_threshold, 30);
}

#[test]
fn enumerations_degrade_to_unknown() {
    assert_eq!(Type::from("Battery"), Type::Battery);
    assert_eq!(Type::from("USB_PD_DRP"), Type::USB_PD_DRP);
    assert_eq!(Type::from("battery"), Type::Unknown);
    assert_eq!(Type::from("Unknown"), Type::Unknown);
    assert_eq!(Status::from("Not charging"), Status::NotCharging);
    assert_eq!(Status::from("NotCharging"), Status::Unknown);
    assert_eq!(Status::from("Full"), Status::Full);
    assert_eq!(Technology::from("Li-poly"), Technology::LiPoly);
    assert_eq!(Technology::from("LiPoly"), Technology::Unknown);
    assert_eq!(CapacityLevel::from("Critical"), CapacityLevel::Critical);
    assert_eq!(CapacityLevel::from(""), CapacityLevel::Unknown);
    assert_eq!(Type::default(), Type::Unknown);
    assert_eq!(Status::default(), Status::Unknown);
    assert_eq!(Technology::default(), Technology::Unknown);
    assert_eq!(CapacityLevel::default(), CapacityLevel::Unknown);
}

#[test]
fn batteries_are_told_by_name() {
    assert!(is_battery("BAT0"));
    assert!(is_battery("BAT"));
    assert!(!is_battery("AC"));
    assert!(!is_battery("bat0"));
    assert!(!is_battery("BAT\u{e9}"));
    assert!(!is_battery(""));
}

#[test]
fn list_keeps_batteries_in_order_and_fails_fast() {
    let dirs = vec![
        dir("AC", "POWER_SUPPLY_CAPACITY=oops\n"),
        dir("BAT1", "POWER_SUPPLY_NAME=one\n"),
        dir("hidpp_battery_0", "POWER_SUPPLY_NAME=mouse\n"),
        dir("BAT0", "POWER_SUPPLY_NAME=zero\n"),
    ];
    let list = get_list(&dirs).unwrap();
    assert_eq!(list.len(), 2);
    assert_eq!(list[0].name, "one");
    assert_eq!(list[1].name, "zero");

    let dirs = vec![
        dir("BAT0", "POWER_SUPPLY_NAME=zero\n"),
        dir("BAT1", "POWER_SUPPLY_CAPACITY=oops\n"),
        dir("BAT2", "POWER_SUPPLY_CYCLE_COUNT=oops\n"),
    ];
    assert_eq!(
        get_list(&dirs),
        Err(Error::ParseFile("power_supply/uevent", "Failed to parse capacity"))
    );
    assert_eq!(get_list(&Vec::new()), Ok(Vec::new()));
}

#[test]
fn reading_twice_gives_the_same_record() {
    let d = dir("BAT0", "POWER_SUPPLY_STATUS=Full\nPOWER_SUPPLY_CAPACITY=100\n");
    assert_eq!(read_detail(&d), read_detail(&d));
}
