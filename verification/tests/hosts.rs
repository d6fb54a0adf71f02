use rpc_servers::hosts::format_allowed_hosts;
use rpc_servers::server::host_filter;

#[test]
fn each_port_gives_both_loopback_names() {
    let list = format_allowed_hosts(&[9944, 9933]);
    assert_eq!(
        list.entries,
        vec![
            "localhost:9944".to_string(),
            "127.0.0.1:9944".to_string(),
            "localhost:9933".to_string(),
            "127.0.0.1:9933".to_string(),
        ]
    );
}

#[test]
fn no_port_gives_empty_list() {
    let list = format_allowed_hosts(&[]);
    assert!(list.entries.is_empty());
    assert!(!list.permits("localhost:9944"));
}

#[test]
fn shared_port_is_listed_for_each_address() {
    let list = format_allowed_hosts(&[30333, 30333]);
    assert_eq!(list.entries.len(), 4);
    assert_eq!(list.entries[0], list.entries[2]);
    assert_eq!(list.entries[1], list.entries[3]);
    assert!(list.permits("localhost:30333"));
}

#[test]
fn ports_are_written_in_decimal_without_padding() {
    let list = format_allowed_hosts(&[0, 7, 80, 443, 10000, 65535]);
    let expected = ["0", "7", "80", "443", "10000", "65535"];
    for (i, port) in expected.iter().enumerate() {
        assert_eq!(list.entries[2 * i], format!("localhost:{}", port));
        assert_eq!(list.entries[2 * i + 1], format!("127.0.0.1:{}", port));
    }
}

#[test]
fn every_port_is_written_as_the_standard_library_writes_it() {
    let ports: Vec<u16> = (0..=u16::MAX).step_by(97).collect();
    let list = format_allowed_hosts(&ports);
    for (i, port) in ports.iter().enumerate() {
        assert_eq!(list.entries[2 * i], format!("localhost:{}", port));
        assert_eq!(list.entries[2 * i + 1], format!("127.0.0.1:{}", port));
    }
}

#[test]
fn only_exact_entries_are_permitted() {
    let list = format_allowed_hosts(&[9944]);
    assert!(list.permits("localhost:9944"));
    assert!(list.permits("127.0.0.1:9944"));
    assert!(!list.permits("localhost:9945"));
    assert!(!list.permits("localhost"));
    assert!(!list.permits("localhost:9944 "));
    assert!(!list.permits("0.0.0.0:9944"));
    assert!(!list.permits(""));
}

#[test]
fn foreign_host_is_rejected_on_a_bound_port() {
    let list = format_allowed_hosts(&[9944, 9933]);
    assert!(!list.permits("attacker.example:9944"));
    assert!(!list.permits("attacker.example:9933"));
}

#[test]
fn bind_address_itself_is_not_listed() {
    let list = format_allowed_hosts(&[9944]);
    assert!(!list.permits("192.168.1.10:9944"));
    assert!(!list.permits("[::1]:9944"));
}

#[test]
fn transport_filter_passes_listed_hosts_only() {
    let list = format_allowed_hosts(&[9944]);
    let filter = host_filter(&list);
    assert!(filter.verify("localhost:9944").is_ok());
    assert!(filter.verify("127.0.0.1:9944").is_ok());
    assert!(filter.verify("attacker.example:9944").is_err());
    assert!(filter.verify("localhost:9945").is_err());
}

#[test]
fn transport_filter_holds_the_entries_in_order() {
    let list = format_allowed_hosts(&[9944, 80]);
    match host_filter(&list) {
        jsonrpsee::server::AllowHosts::Only(hosts) => {
            let held: Vec<&str> = hosts.iter().map(|host| &**host).collect();
            assert_eq!(
                held,
                vec!["localhost:9944", "127.0.0.1:9944", "localhost:80", "127.0.0.1:80"]
            );
        },
        jsonrpsee::server::AllowHosts::Any => panic!("the filter must not pass every host"),
    }
}

#[test]
fn transport_filter_of_no_port_passes_no_host() {
    let filter = host_filter(&format_allowed_hosts(&[]));
    assert!(filter.verify("localhost:9944").is_err());
    assert!(filter.verify("").is_err());
}
