use hostinfo::error::Error;
use hostinfo::network::arp_table;
use hostinfo::network::dev::{self, DevType};
use hostinfo::network::routing_table;

#[test]
fn arp_table_rows_in_order() {
    let text = "Iface\tb\tc\td\te\tf\n192.168.1.1\t0x1\t0x2\taa:bb\t*\teth0\n\n10.0.0.1\t0x1\t0x0\t\t*\twlan0\n";
    let list = arp_table::get_list(text).unwrap();
    assert_eq!(list.len(), 2);
    assert_eq!(list[0].ip, "192.168.1.1");
    assert_eq!(list[0].device, "eth0");
    assert_eq!(list[1].hw_address, "");
    assert_eq!(list[1].device, "wlan0");
}

#[test]
fn arp_table_with_a_wrong_header_fails() {
    let text = "Iface\tb\tc\n192.168.1.1\t0x1\t0x2\taa:bb\t*\teth0\n";
    assert_eq!(
        arp_table::get_list(text),
        Err(Error::ParseFile("/proc/net/arp", "Failed to parse arp file, expect 6 parts"))
    );
}

#[test]
fn routing_table_rows() {
    let text = "Iface\tDestination\tGateway \tFlags\tRefCnt\tUse\tMetric\tMask\t\tMTU\tWindow\tIRTT\neth0\t00000000\t0101A8C0\t0003\t0\t0\t100\t00000000\t0\t0\t0\n";
    let list = routing_table::get_list(text).unwrap();
    assert_eq!(list.len(), 1);
    assert_eq!(list[0].interface, "eth0");
    assert_eq!(list[0].metric, 100);
    assert_eq!(list[0].mask, "00000000");
}

#[test]
fn routing_table_bad_number() {
    let text = "eth0 0 0 0003 0 0 x 0 0 0 0\n";
    assert_eq!(
        routing_table::get_list(text),
        Err(Error::ParseFile("/proc/net/route", "Failed to parse metric"))
    );
}

#[test]
fn dev_table_rows() {
    let text = "Inter-|   Receive                                                |  Transmit\n face |bytes    packets errs drop fifo frame compressed multicast|bytes    packets errs drop fifo colls carrier compressed\n    lo: 100 2 0 0 0 0 0 0 100 2 0 0 0 0 0 0\n  eth0: 1 2 3 4 5 6 7 8 9 10 11 12 13 14 15 16\n";
    let list = dev::get_list(text).unwrap();
    assert_eq!(list.len(), 2);
    assert_eq!(list[0].interface, "lo:");
    assert_eq!(list[0].dev_type, DevType::Loopback);
    assert_eq!(list[1].dev_type, DevType::Ethernet);
    assert_eq!(list[1].received_bytes, 1);
    assert_eq!(list[1].transmit_compressed, 16);
}

#[test]
fn dev_type_from_name() {
    assert_eq!(DevType::from_name("vmnet8"), DevType::VirtualNetwork);
    assert_eq!(DevType::from_name("enp3s0"), DevType::Ethernet);
    assert_eq!(DevType::from_name("xyz"), DevType::Unknown);
}

#[test]
fn routing_table_with_a_wrong_header_fails_before_any_row() {
    let text = "Iface\tDestination\tGateway\neth0 0 0 0003 x y z 0 0 0 0\n";
    assert_eq!(
        routing_table::get_list(text),
        Err(Error::ParseFile("/proc/net/route", "Failed to parse route file, expect 11 parts"))
    );
}

#[test]
fn routing_table_short_row_fails() {
    let text = "eth0 0 0 0003 0 0 0 0 0 0\n";
    assert_eq!(
        routing_table::get_list(text),
        Err(Error::ParseFile("/proc/net/route", "Failed to parse route file, expect 11 parts"))
    );
}

#[test]
fn routing_table_number_errors_name_the_field() {
    let names = ["refcnt", "used", "metric", "", "mtu", "window", "irtt"];
    for (offset, name) in names.iter().enumerate() {
        if name.is_empty() {
            continue;
        }
        let mut fields = vec!["eth0", "0", "0", "3", "1", "2", "3", "FF", "4", "5", "6"];
        fields[4 + offset] = "bad";
        let text = fields.join("\t");
        let reason = match routing_table::get_list(&text) {
            Err(Error::ParseFile(_, reason)) => reason,
            other => panic!("{:?}", other),
        };
        assert_eq!(reason, format!("Failed to parse {}", name));
    }
}

#[test]
fn dev_table_errors() {
    assert_eq!(
        dev::get_list("eth0: 1 2 3\n"),
        Err(Error::ParseFile("/proc/net/dev", "Failed to parse dev file, expect 17 parts"))
    );
    assert_eq!(
        dev::get_list("eth0: 1 2 3 4 5 6 7 8 9 10 11 12 x 14 15 16\n"),
        Err(Error::ParseFile("/proc/net/dev", "Failed to parse transmit fifo"))
    );
    assert_eq!(
        dev::get_list("eth0: a 2 3 4 5 6 7 8 9 10 11 12 x 14 15 16\n"),
        Err(Error::ParseFile("/proc/net/dev", "Failed to parse received bytes"))
    );
    assert_eq!(dev::get_list("\n   \n"), Ok(Vec::new()));
}

#[test]
fn error_in_words() {
    assert_eq!(
        Error::ParseFile("/proc/net/arp", "Failed to parse arp file, expect 6 parts").message(),
        "Failed to parse `/proc/net/arp`, reason: `Failed to parse arp file, expect 6 parts`"
    );
    assert_eq!(Error::NotFound("stp".to_string()).message(), "Failed to find `stp`");
}
