use hostinfo::device::usb::{
    is_device, scan_sysfs, scan_usb, scan_usb_event, udev_path, UsbDev, UsbDir,
};

fn dir(path: &str, uevent: &str, udev: &str) -> UsbDir {
    UsbDir {
        path: path.to_string(),
        max_power: None,
        manufacturer: None,
        product: None,
        speed: None,
        version: None,
        uevent: uevent.to_string(),
        udev: udev.to_string(),
    }
}

#[test]
fn usb_device_from_all_three_sources() {
    let mut d = dir(
        "/sys/bus/usb/devices/1-1",
        "MAJOR=189\nMINOR=3\nDEVNAME=bus/usb/001/004\nDEVTYPE=usb_device\nDRIVER=usb\nBUSNUM=001\nDEVNUM=004\n",
        "I:123\nE:ID_BUS=usb\nE:ID_MODEL=Mouse\nE:ID_MODEL_ID=c077\nE:ID_SERIAL=Logitech_Mouse\nE:ID_SERIAL_SHORT=S1\nE:ID_VENDOR=Logitech\nE:ID_VENDOR_ID=046d\nE:ID_REVISION=7200\nE:ID_USB_INTERFACES=:030102:\nE:ID_VENDOR_FROM_DATABASE=Logitech, Inc.\nE:ID_MODEL_FROM_DATABASE=Mouse\nE:ID_PATH_WITH_USB_REVISION=pci-usbv2-0:1\nE:ID_PATH=pci-0000:00:14.0-usb-0:1\nE:OTHER=x\nID_BUS=pci\n",
    );
    d.max_power = Some("100mA\n".to_string());
    d.manufacturer = Some(" Logitech ".to_string());
    d.product = Some("USB Optical Mouse\n".to_string());
    d.speed = Some("1.5\n".to_string());
    d.version = Some(" 2.00\n".to_string());
    let dev = scan_usb_event(&d);
    assert_eq!(
        dev,
        UsbDev {
            max_power: "100mA".to_string(),
            manufacturer: "Logitech".to_string(),
            product: "USB Optical Mouse".to_string(),
            speed: "1.5".to_string(),
            version: "2.00".to_string(),
            major: "189".to_string(),
            minor: "3".to_string(),
            dev_name: "bus/usb/001/004".to_string(),
            dev_type: "usb_device".to_string(),
            bus_num: "001".to_string(),
            dev_num: "004".to_string(),
            bus: "usb".to_string(),
            model: "Mouse".to_string(),
            model_id: "c077".to_string(),
            serial: "Logitech_Mouse".to_string(),
            serial_short: "S1".to_string(),
            vendor: "Logitech".to_string(),
            vendor_id: "046d".to_string(),
            revision: "7200".to_string(),
            usb_interfaces: ":030102:".to_string(),
            vendor_from_database: "Logitech, Inc.".to_string(),
            model_from_database: "Mouse".to_string(),
            path_with_usb_revision: "pci-usbv2-0:1".to_string(),
            path: "pci-0000:00:14.0-usb-0:1".to_string(),
        }
    );
    let half = scan_sysfs(&d);
    assert_eq!(half.major, "189");
    assert_eq!(half.bus, "");
}

#[test]
fn usb_defaults_when_nothing_is_known() {
    assert_eq!(scan_usb_event(&dir("x", "", "")), UsbDev::default());
    assert_eq!(
        scan_usb_event(&dir("x", "FOO=1\nE:ID_BUS=usb\n", "ID_BUS=usb\nE:FOO=1\nMAJOR=1\n")),
        UsbDev::default()
    );
}

#[test]
fn usb_value_is_what_follows_the_first_equals_sign() {
    let dev = scan_usb_event(&dir("x", "DEVNAME= a=b=c \n", "E:ID_MODEL==\n"));
    assert_eq!(dev.dev_name, "a=b=c");
    assert_eq!(dev.model, "=");
}

#[test]
fn usb_later_fact_overrides_earlier() {
    let dev = scan_usb_event(&dir("x", "MAJOR=1\nMAJOR=2\n", ""));
    assert_eq!(dev.major, "2");
}

#[test]
fn udev_path_from_device_numbers() {
    assert_eq!(udev_path("MAJOR=189\nMINOR=3\n"), "/run/udev/data/c189:3");
    assert_eq!(udev_path(""), "/run/udev/data/c:");
    assert_eq!(udev_path("MINOR= 7\n"), "/run/udev/data/c:7");
}

#[test]
fn usb_devices_have_no_colon_in_their_path() {
    assert!(is_device("/sys/bus/usb/devices/1-1"));
    assert!(is_device("usb1"));
    assert!(!is_device("/sys/bus/usb/devices/1-1:1.0"));
    assert!(is_device(""));
}

#[test]
fn usb_scan_keeps_devices_in_order() {
    let dirs = vec![
        dir("/sys/bus/usb/devices/usb1", "MAJOR=1\n", ""),
        dir("/sys/bus/usb/devices/1-0:1.0", "MAJOR=2\n", ""),
        dir("/sys/bus/usb/devices/1-1", "MAJOR=3\n", ""),
    ];
    let list = scan_usb(&dirs);
    assert_eq!(list.len(), 2);
    assert_eq!(list[0].major, "1");
    assert_eq!(list[1].major, "3");
    assert_eq!(scan_usb(&Vec::new()), Vec::new());
}
