use homelabme::domain::network_entities::InterfaceType;
use homelabme::domain::network_repositories::NetworkInterfaceRepository;
use homelabme::infrastructure::discovery::{HostAddress, HostInterface};
use homelabme::infrastructure::network_repositories::{
    MockNetworkInterfaceRepository, SystemNetworkInterfaceRepository,
};

fn entry(name: &str, addresses: Vec<HostAddress>) -> HostInterface {
    HostInterface { name: name.to_string(), addresses }
}

fn v4(text: &str) -> HostAddress {
    HostAddress::V4(text.to_string())
}

fn v6(text: &str) -> HostAddress {
    HostAddress::V6(text.to_string())
}

#[test]
fn classification_by_name() {
    let kind = SystemNetworkInterfaceRepository::determine_interface_type;
    assert_eq!(kind("eth0"), InterfaceType::Ethernet);
    assert_eq!(kind("wlan0"), InterfaceType::Wireless);
    assert_eq!(kind("lo"), InterfaceType::Loopback);
    assert_eq!(kind("docker0"), InterfaceType::Other);
}

#[test]
fn classification_precedence_and_prefixes() {
    let kind = SystemNetworkInterfaceRepository::determine_interface_type;
    assert_eq!(kind("lo0"), InterfaceType::Loopback);
    assert_eq!(kind("local"), InterfaceType::Loopback);
    assert_eq!(kind("wlp2s0"), InterfaceType::Wireless);
    assert_eq!(kind("wifi0"), InterfaceType::Wireless);
    assert_eq!(kind("enp3s0"), InterfaceType::Ethernet);
    assert_eq!(kind("en"), InterfaceType::Ethernet);
    assert_eq!(kind("e"), InterfaceType::Other);
    assert_eq!(kind(""), InterfaceType::Other);
    assert_eq!(kind("w"), InterfaceType::Other);
    assert_eq!(kind("Eth0"), InterfaceType::Other);
    assert_eq!(kind("br-lo"), InterfaceType::Other);
}

#[test]
fn merge_two_entries_of_one_interface() {
    let report = vec![
        entry("eth0", vec![v4("192.168.1.5")]),
        entry("eth0", vec![v6("fe80::1")]),
    ];
    let merged = SystemNetworkInterfaceRepository::merge_report(&report);
    assert_eq!(merged.len(), 1);
    let eth0 = &merged[0];
    assert_eq!(eth0.name, "eth0");
    assert_eq!(eth0.interface_type, InterfaceType::Ethernet);
    assert_eq!(eth0.mac_address, "N/A");
    assert_eq!(eth0.ipv4_addresses, vec!["192.168.1.5".to_string()]);
    assert_eq!(eth0.ipv6_addresses, vec!["fe80::1".to_string()]);
    assert_eq!(eth0.current_ip, Some("192.168.1.5".to_string()));
    assert!(eth0.is_up);
}

#[test]
fn merge_keeps_first_occurrence_order_and_discovery_order() {
    let report = vec![
        entry("wlan0", vec![v6("fe80::2")]),
        entry("lo", vec![v4("127.0.0.1"), v6("::1")]),
        entry("wlan0", vec![v4("10.0.0.7"), v6("fe80::3")]),
        entry("dummy0", vec![]),
    ];
    let merged = SystemNetworkInterfaceRepository::merge_report(&report);
    assert_eq!(merged.len(), 3);
    assert_eq!(merged[0].name, "wlan0");
    assert_eq!(merged[0].interface_type, InterfaceType::Wireless);
    assert_eq!(merged[0].ipv4_addresses, vec!["10.0.0.7".to_string()]);
    assert_eq!(merged[0].ipv6_addresses, vec!["fe80::2".to_string(), "fe80::3".to_string()]);
    assert_eq!(merged[0].current_ip, Some("fe80::2".to_string()));
    assert!(merged[0].is_up);
    assert_eq!(merged[1].name, "lo");
    assert_eq!(merged[1].interface_type, InterfaceType::Loopback);
    assert_eq!(merged[1].current_ip, Some("127.0.0.1".to_string()));
    assert_eq!(merged[2].name, "dummy0");
    assert_eq!(merged[2].interface_type, InterfaceType::Other);
    assert!(!merged[2].is_up);
    assert_eq!(merged[2].current_ip, None);
    assert!(merged[2].ipv4_addresses.is_empty());
    assert!(merged[2].ipv6_addresses.is_empty());
}

#[test]
fn merge_of_empty_report_is_empty() {
    let merged = SystemNetworkInterfaceRepository::merge_report(&Vec::new());
    assert!(merged.is_empty());
}

#[test]
fn convert_one_entry() {
    let host = entry("enp0s3", vec![v6("fe80::9"), v4("10.1.1.1")]);
    let interface = SystemNetworkInterfaceRepository::convert_system_interface(&host);
    assert_eq!(interface.name, "enp0s3");
    assert_eq!(interface.interface_type, InterfaceType::Ethernet);
    assert_eq!(interface.mac_address, "N/A");
    assert!(interface.is_up);
    assert_eq!(interface.ipv4_addresses, vec!["10.1.1.1".to_string()]);
    assert_eq!(interface.ipv6_addresses, vec!["fe80::9".to_string()]);
    assert_eq!(interface.current_ip, Some("fe80::9".to_string()));
}

#[test]
fn failed_enumeration_carries_the_cause() {
    let found =
        SystemNetworkInterfaceRepository::interfaces_from_report(Err("no access".to_string()));
    assert_eq!(found.err(), Some("Failed to get network interfaces: no access".to_string()));
}

#[test]
fn report_becomes_listing() {
    let found = SystemNetworkInterfaceRepository::interfaces_from_report(Ok(vec![
        entry("lo", vec![v4("127.0.0.1")]),
    ]));
    let list = found.unwrap();
    assert_eq!(list.len(), 1);
    assert_eq!(list[0].name, "lo");
}

#[test]
fn host_listing_is_consistent() {
    let repository = SystemNetworkInterfaceRepository::new();
    match repository.get_interfaces() {
        Ok(list) => {
            for (i, interface) in list.iter().enumerate() {
                let kind = SystemNetworkInterfaceRepository::determine_interface_type(
                    &interface.name,
                );
                assert_eq!(interface.interface_type, kind);
                assert_eq!(interface.mac_address, "N/A");
                let addressed =
                    !interface.ipv4_addresses.is_empty() || !interface.ipv6_addresses.is_empty();
                assert_eq!(interface.is_up, addressed);
                assert_eq!(interface.current_ip.is_some(), addressed);
                for other in list.iter().skip(i + 1) {
                    assert_ne!(interface.name, other.name);
                }
            }
        }
        Err(e) => assert!(e.starts_with("Failed to get network interfaces: ")),
    }
}

#[test]
fn find_interface_by_name() {
    let report = vec![entry("lo", vec![v4("127.0.0.1")]), entry("eth0", vec![])];
    let merged = SystemNetworkInterfaceRepository::merge_report(&report);
    let found = SystemNetworkInterfaceRepository::find_by_name(&merged, "eth0").unwrap();
    assert_eq!(found.name, "eth0");
    assert!(!found.is_up);
    assert!(SystemNetworkInterfaceRepository::find_by_name(&merged, "eth1").is_none());
}

#[test]
fn mock_discovery_gives_three_interfaces() {
    let repository = MockNetworkInterfaceRepository::new();
    let list = repository.get_interfaces().unwrap();
    assert_eq!(list.len(), 3);
    assert_eq!(list[0].name, "lo");
    assert_eq!(list[0].interface_type, InterfaceType::Loopback);
    assert_eq!(list[0].ipv4_addresses, vec!["127.0.0.1".to_string()]);
    assert_eq!(list[0].current_ip, Some("127.0.0.1".to_string()));
    assert_eq!(list[1].name, "eth0");
    assert_eq!(list[1].interface_type, InterfaceType::Ethernet);
    assert_eq!(list[1].current_ip, Some("192.168.1.100".to_string()));
    assert_eq!(list[2].name, "wlan0");
    assert_eq!(list[2].interface_type, InterfaceType::Wireless);
    assert_eq!(list[2].current_ip, Some("192.168.1.101".to_string()));
    for interface in list.iter() {
        assert!(interface.is_up);
        assert!(interface.ipv6_addresses.is_empty());
        assert_eq!(interface.mac_address, "N/A");
    }
    let again = MockNetworkInterfaceRepository::default().get_interfaces().unwrap();
    assert_eq!(again.len(), 3);
}

#[test]
fn mock_discovery_finds_by_name() {
    let repository = MockNetworkInterfaceRepository::new();
    let found = repository.get_interface_by_name("eth0").unwrap().unwrap();
    assert_eq!(found.name, "eth0");
    assert_eq!(found.interface_type, InterfaceType::Ethernet);
    assert!(repository.get_interface_by_name("eth1").unwrap().is_none());
    assert!(repository.get_interface_by_name("").unwrap().is_none());
}

#[test]
fn host_lookup_by_name_agrees_with_the_name() {
    let repository = SystemNetworkInterfaceRepository::default();
    match repository.get_interface_by_name("lo") {
        Ok(Some(interface)) => {
            assert_eq!(interface.name, "lo");
            assert_eq!(interface.interface_type, InterfaceType::Loopback);
        }
        Ok(None) => {}
        Err(e) => assert!(e.starts_with("Failed to get network interfaces: ")),
    }
}
