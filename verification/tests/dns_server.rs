use hostinfo::error::Error;
use hostinfo::network::dns_server::{get_list, DnsServer};

#[test]
fn name_servers_in_order() {
    let text = "# comment\nsearch lan\nnameserver 8.8.8.8\n  nameserver\t1.1.1.1 extra\noptions edns0\nnameserverx 9.9.9.9\n";
    assert_eq!(
        get_list(text),
        Ok(vec![
            DnsServer { ip: "8.8.8.8".to_string(), hostname: String::new() },
            DnsServer { ip: "1.1.1.1".to_string(), hostname: String::new() },
        ])
    );
}

#[test]
fn name_server_without_address_fails() {
    assert_eq!(
        get_list("nameserver 8.8.8.8\nnameserver\n"),
        Err(Error::ParseFile("/etc/resolv.conf", "Invalid nameserver"))
    );
}

#[test]
fn no_name_servers() {
    assert_eq!(get_list(""), Ok(Vec::new()));
    assert_eq!(get_list("search lan\n\n"), Ok(Vec::new()));
}
