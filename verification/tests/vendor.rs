use hostinfo::base::classify::{lookup, Rule};
use hostinfo::computer::vendor::{get_name, get_url, vendor_list, Vendor};

#[test]
fn test_get_name() {
    assert_eq!(
        get_name("Realtek Semiconductor Co., Ltd. RTL8821CE"),
        Some("Realtek")
    );
    assert_eq!(
        get_name("Hewlett-Packard Company RTL8821CE"),
        Some("Hewlett-Packard")
    );
}

#[test]
fn test_get_url() {
    assert_eq!(
        get_url("Realtek Semiconductor Co., Ltd. RTL8821CE"),
        Some("www.realtek.com.tw")
    );
    assert_eq!(
        get_url("Hewlett-Packard Company RTL8821CE"),
        Some("www.hp.com")
    );
}

#[test]
fn lookup_returns_the_earlier_of_two_matching_entries() {
    let table = vec![
        Vendor::new("VIA", "X", ""),
        Vendor::new("VIA Technologies", "Y", ""),
    ];
    let found = lookup(&table, "VIA Technologies Inc.", Rule::Substring);
    assert_eq!(found.map(|v| v.name), Some("X"));
}

#[test]
fn vendor_table_prefers_the_longer_via_entry_by_order() {
    assert_eq!(vendor_list().len(), 85);
    assert_eq!(get_name("VIA Technologies Inc."), Some("VIA Technologies"));
    assert_eq!(get_name("VIA VIA VIA"), Some("VIA Technologies"));
}

#[test]
fn unknown_vendor_is_no_match() {
    assert_eq!(get_name("no such maker"), None);
    assert_eq!(get_url("no such maker"), None);
    assert_eq!(get_name(""), None);
}

#[test]
fn lookup_in_a_table_of_one_entry() {
    let table = vec![Vendor::new("Realtek Semiconductor", "Realtek", "")];
    let found = lookup(&table, "Realtek Semiconductor Co., Ltd. RTL8821CE", Rule::Substring);
    assert_eq!(found.map(|v| v.name), Some("Realtek"));
    assert!(lookup(&table, "Realtek", Rule::Substring).is_none());
    assert!(lookup(&table, "A Realtek Semiconductor", Rule::Prefix).is_none());
    assert!(lookup(&table, "Realtek Semiconductor", Rule::Prefix).is_some());
    assert!(lookup(&Vec::<Vendor>::new(), "x", Rule::Substring).is_none());
}
