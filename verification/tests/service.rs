use homelabme::domain::network_entities::{
    NetworkInterface, ScanReading, StaticIpConfig, WifiConfig, WifiSecurityType,
};
use homelabme::domain::network_repositories::NetworkInterfaceRepository;
use homelabme::domain::network_services::{NetworkConfigService, NetworkConfigServiceImpl};
use homelabme::infrastructure::network_repositories::{
    InMemoryStaticIpConfigRepository, InMemoryWifiConfigRepository,
    SystemNetworkInterfaceRepository,
};

type Service = NetworkConfigServiceImpl<
    InMemoryWifiConfigRepository,
    InMemoryStaticIpConfigRepository,
    SystemNetworkInterfaceRepository,
>;

fn service() -> Service {
    NetworkConfigServiceImpl::new(
        InMemoryWifiConfigRepository::new(),
        InMemoryStaticIpConfigRepository::new(),
        SystemNetworkInterfaceRepository::new(),
    )
}

fn create_wifi(service: &mut Service, ssid: &str) -> WifiConfig {
    service
        .create_wifi_config(ssid.to_string(), "pw".to_string(), WifiSecurityType::WPA2)
        .unwrap()
}

fn create_static_ip(service: &mut Service, interface: &str) -> StaticIpConfig {
    service
        .create_static_ip_config(
            interface.to_string(),
            "10.0.0.2".to_string(),
            "255.255.255.0".to_string(),
            "10.0.0.1".to_string(),
            "1.1.1.1".to_string(),
            None,
        )
        .unwrap()
}

fn active_ids(service: &Service) -> Vec<String> {
    service
        .get_wifi_configs()
        .unwrap()
        .into_iter()
        .filter(|c| c.is_active)
        .map(|c| c.id)
        .collect()
}

#[test]
fn created_wifi_profile_is_stored_inactive() {
    let mut service = service();
    let created = create_wifi(&mut service, "Home");
    assert_eq!(created.ssid, "Home");
    assert_eq!(created.password, "pw");
    assert_eq!(created.security_type, WifiSecurityType::WPA2);
    assert!(!created.is_active);
    let listed = service.get_wifi_configs().unwrap();
    assert_eq!(listed.len(), 1);
    assert_eq!(listed[0].id, created.id);
    assert_eq!(listed[0].ssid, "Home");
    assert_eq!(listed[0].created_at, created.created_at);
    assert!(!listed[0].is_active);
    assert!(service.get_active_wifi_config().unwrap().is_none());
    assert!(service.get_static_ip_configs().unwrap().is_empty());
}

#[test]
fn after_each_activation_exactly_that_profile_is_active() {
    let mut service = service();
    let a = create_wifi(&mut service, "a");
    let b = create_wifi(&mut service, "b");
    assert_eq!(service.activate_wifi_config(&a.id), Ok(()));
    assert_eq!(active_ids(&service), vec![a.id.clone()]);
    let c = create_wifi(&mut service, "c");
    assert_eq!(active_ids(&service), vec![a.id.clone()]);
    assert_eq!(service.activate_wifi_config(&c.id), Ok(()));
    assert_eq!(active_ids(&service), vec![c.id.clone()]);
    assert_eq!(service.activate_wifi_config(&b.id), Ok(()));
    assert_eq!(active_ids(&service), vec![b.id.clone()]);
    assert_eq!(service.activate_wifi_config(&b.id), Ok(()));
    assert_eq!(active_ids(&service), vec![b.id.clone()]);
    assert_eq!(service.get_active_wifi_config().unwrap().unwrap().id, b.id);
    assert_eq!(service.get_wifi_configs().unwrap().len(), 3);
}

#[test]
fn activating_a_missing_profile_is_not_found_and_leaves_none_active() {
    let mut service = service();
    assert_eq!(
        service.activate_wifi_config("missing"),
        Err("WiFi config not found".to_string())
    );
    assert!(service.get_active_wifi_config().unwrap().is_none());
    let a = create_wifi(&mut service, "a");
    service.activate_wifi_config(&a.id).unwrap();
    assert_eq!(
        service.activate_wifi_config("missing"),
        Err("WiFi config not found".to_string())
    );
    assert!(service.get_active_wifi_config().unwrap().is_none());
    assert_eq!(service.get_wifi_configs().unwrap().len(), 1);
}

#[test]
fn deleting_wifi_profiles_never_errors() {
    let mut service = service();
    assert_eq!(service.delete_wifi_config("never created"), Ok(()));
    let a = create_wifi(&mut service, "a");
    assert_eq!(service.delete_wifi_config(&a.id), Ok(()));
    assert_eq!(service.delete_wifi_config(&a.id), Ok(()));
    assert!(service.get_wifi_configs().unwrap().is_empty());
}

#[test]
fn created_static_ip_profile_is_stored_disabled() {
    let mut service = service();
    let created = service
        .create_static_ip_config(
            "eth0".to_string(),
            "192.168.1.10".to_string(),
            "255.255.255.0".to_string(),
            "192.168.1.1".to_string(),
            "8.8.8.8".to_string(),
            Some("8.8.4.4".to_string()),
        )
        .unwrap();
    assert!(!created.is_enabled);
    let listed = service.get_static_ip_configs().unwrap();
    assert_eq!(listed.len(), 1);
    assert_eq!(listed[0].id, created.id);
    assert_eq!(listed[0].interface_name, "eth0");
    assert_eq!(listed[0].ip_address, "192.168.1.10");
    assert_eq!(listed[0].subnet_mask, "255.255.255.0");
    assert_eq!(listed[0].gateway, "192.168.1.1");
    assert_eq!(listed[0].dns_primary, "8.8.8.8");
    assert_eq!(listed[0].dns_secondary, Some("8.8.4.4".to_string()));
    assert!(!listed[0].is_enabled);
    assert!(service.get_wifi_configs().unwrap().is_empty());
}

#[test]
fn enabling_one_static_ip_profile_leaves_the_other_alone() {
    let mut service = service();
    let a = create_static_ip(&mut service, "eth0");
    let b = create_static_ip(&mut service, "eth0");
    assert_eq!(service.enable_static_ip(&a.id), Ok(()));
    let enabled_of = |service: &Service, id: &str| {
        let all = service.get_static_ip_configs().unwrap();
        all.into_iter().find(|c| c.id == id).unwrap().is_enabled
    };
    assert!(enabled_of(&service, &a.id));
    assert!(!enabled_of(&service, &b.id));
    assert_eq!(service.enable_static_ip(&b.id), Ok(()));
    assert_eq!(service.disable_static_ip(&a.id), Ok(()));
    assert!(!enabled_of(&service, &a.id));
    assert!(enabled_of(&service, &b.id));
    assert_eq!(
        service.enable_static_ip("missing"),
        Err("Static IP config not found".to_string())
    );
    assert_eq!(
        service.disable_static_ip("missing"),
        Err("Static IP config not found".to_string())
    );
    assert_eq!(service.delete_static_ip_config(&a.id), Ok(()));
    assert_eq!(service.delete_static_ip_config(&a.id), Ok(()));
    assert_eq!(service.get_static_ip_configs().unwrap().len(), 1);
}

#[test]
fn wifi_and_static_ip_profiles_are_kept_apart() {
    let mut service = service();
    let wifi = create_wifi(&mut service, "a");
    let fixed = create_static_ip(&mut service, "eth0");
    assert_eq!(service.delete_static_ip_config(&wifi.id), Ok(()));
    assert_eq!(service.delete_wifi_config(&fixed.id), Ok(()));
    assert_eq!(service.get_wifi_configs().unwrap().len(), 1);
    assert_eq!(service.get_static_ip_configs().unwrap().len(), 1);
    assert_eq!(
        service.activate_wifi_config(&fixed.id),
        Err("WiFi config not found".to_string())
    );
    assert_eq!(
        service.enable_static_ip(&wifi.id),
        Err("Static IP config not found".to_string())
    );
}

#[test]
fn scan_through_the_service_is_sanitized() {
    let service = service();
    let readings = vec![
        ScanReading {
            mac: "AA:BB".to_string(),
            ssid: "".to_string(),
            channel: "1".to_string(),
            signal_level: "-50".to_string(),
            security: "".to_string(),
        },
        ScanReading {
            mac: "".to_string(),
            ssid: "Home".to_string(),
            channel: "".to_string(),
            signal_level: "-60".to_string(),
            security: "WPA".to_string(),
        },
    ];
    let found = service.scan_wifi_networks(Ok(readings)).unwrap();
    assert_eq!(found.len(), 1);
    assert_eq!(found[0].ssid, "Home");
    assert_eq!(found[0].mac, "Unknown");
    assert_eq!(found[0].channel, "Unknown");
    assert_eq!(found[0].signal_level, "-60");
    assert_eq!(found[0].security, "WPA");
}

#[test]
fn failed_scan_carries_the_cause() {
    let service = service();
    let found = service.scan_wifi_networks(Err("CommandNotFound".to_string()));
    assert_eq!(found.err(), Some("WiFi scan failed: CommandNotFound".to_string()));
}

#[test]
fn applying_always_succeeds_and_changes_nothing() {
    let mut service = service();
    let wifi = create_wifi(&mut service, "a");
    assert_eq!(service.apply_wifi_config(&wifi.id), Ok(()));
    assert_eq!(service.apply_wifi_config("missing"), Ok(()));
    assert_eq!(service.apply_static_ip_config("missing"), Ok(()));
    assert!(service.get_active_wifi_config().unwrap().is_none());
    assert_eq!(service.get_wifi_configs().unwrap().len(), 1);
}

#[test]
fn interfaces_through_the_service() {
    let service = service();
    match service.get_network_interfaces() {
        Ok(list) => {
            for interface in list.iter() {
                assert_eq!(interface.mac_address, "N/A");
                assert_eq!(
                    interface.is_up,
                    !interface.ipv4_addresses.is_empty() || !interface.ipv6_addresses.is_empty()
                );
            }
        }
        Err(e) => assert!(e.starts_with("Failed to get network interfaces: ")),
    }
}

struct FixedInterfaces;

impl NetworkInterfaceRepository for FixedInterfaces {
    fn get_interfaces(&self) -> Result<Vec<NetworkInterface>, String> {
        Err("no access".to_string())
    }

    fn get_interface_by_name(&self, _name: &str) -> Result<Option<NetworkInterface>, String> {
        Err("no access".to_string())
    }
}

#[test]
fn discovery_errors_reach_the_caller_unchanged() {
    let service = NetworkConfigServiceImpl::new(
        InMemoryWifiConfigRepository::new(),
        InMemoryStaticIpConfigRepository::new(),
        FixedInterfaces,
    );
    assert_eq!(service.get_network_interfaces().err(), Some("no access".to_string()));
    assert!(service.get_static_ip_configs().unwrap().is_empty());
    assert!(service.get_wifi_configs().unwrap().is_empty());
}
