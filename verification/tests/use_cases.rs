use homelabme::application::dto::CreateGreetingRequest;
use homelabme::application::network_dto::{
    CreateStaticIpConfigRequest, CreateWifiConfigRequest,
};
use homelabme::application::network_use_cases::{
    page_after_discovery, settings_page, show_interfaces, show_networks,
    show_static_ip_configs, show_wifi_configs,
    ActivateWifiConfigUseCase, ActivateWifiConfigUseCaseImpl, CreateStaticIpConfigUseCase,
    CreateStaticIpConfigUseCaseImpl, CreateWifiConfigUseCase, CreateWifiConfigUseCaseImpl,
    DeleteStaticIpConfigUseCase, DeleteStaticIpConfigUseCaseImpl, DeleteWifiConfigUseCase,
    DeleteWifiConfigUseCaseImpl, DisableStaticIpConfigUseCase, DisableStaticIpConfigUseCaseImpl,
    EnableStaticIpConfigUseCase, EnableStaticIpConfigUseCaseImpl, GetNetworkSettingsUseCase,
    GetNetworkSettingsUseCaseImpl, ScanWifiNetworksUseCase, ScanWifiNetworksUseCaseImpl,
};
use homelabme::application::use_cases::{
    CreateGreetingUseCase, CreateGreetingUseCaseImpl, GetDefaultGreetingUseCase,
    GetDefaultGreetingUseCaseImpl, ListGreetingsUseCase, ListGreetingsUseCaseImpl,
};
use homelabme::domain::network_entities::{
    InterfaceType, NetworkInterface, ScanReading, ScannedWifiNetwork, WifiSecurityType,
};
use homelabme::domain::network_repositories::NetworkInterfaceRepository;
use homelabme::domain::network_services::{NetworkConfigService, NetworkConfigServiceImpl};
use homelabme::domain::services::{GreetingService, GreetingServiceImpl};
use homelabme::infrastructure::network_repositories::{
    InMemoryStaticIpConfigRepository, InMemoryWifiConfigRepository,
};
use homelabme::infrastructure::repositories::InMemoryGreetingRepository;

struct ThreeInterfaces;

fn fixed(name: &str, kind: InterfaceType, v4: &[&str]) -> NetworkInterface {
    NetworkInterface {
        name: name.to_string(),
        interface_type: kind,
        mac_address: "00:00:00:00:00:00".to_string(),
        is_up: !v4.is_empty(),
        ipv4_addresses: v4.iter().map(|a| a.to_string()).collect(),
        ipv6_addresses: Vec::new(),
        current_ip: v4.first().map(|a| a.to_string()),
    }
}

impl NetworkInterfaceRepository for ThreeInterfaces {
    fn get_interfaces(&self) -> Result<Vec<NetworkInterface>, String> {
        Ok(vec![
            fixed("lo", InterfaceType::Loopback, &["127.0.0.1"]),
            fixed("eth0", InterfaceType::Ethernet, &["192.168.1.100"]),
            fixed("wlan0", InterfaceType::Wireless, &[]),
        ])
    }

    fn get_interface_by_name(&self, name: &str) -> Result<Option<NetworkInterface>, String> {
        Ok(self.get_interfaces()?.into_iter().find(|i| i.name == name))
    }
}

type Service = NetworkConfigServiceImpl<
    InMemoryWifiConfigRepository,
    InMemoryStaticIpConfigRepository,
    ThreeInterfaces,
>;

fn service() -> Service {
    NetworkConfigServiceImpl::new(
        InMemoryWifiConfigRepository::new(),
        InMemoryStaticIpConfigRepository::new(),
        ThreeInterfaces,
    )
}

fn wifi_request(ssid: &str) -> CreateWifiConfigRequest {
    CreateWifiConfigRequest {
        ssid: ssid.to_string(),
        password: "secret".to_string(),
        security_type: WifiSecurityType::WPA2,
    }
}

fn static_ip_request(interface: &str) -> CreateStaticIpConfigRequest {
    CreateStaticIpConfigRequest {
        interface_name: interface.to_string(),
        ip_address: "10.0.0.2".to_string(),
        subnet_mask: "255.255.255.0".to_string(),
        gateway: "10.0.0.1".to_string(),
        dns_primary: "1.1.1.1".to_string(),
        dns_secondary: Some("8.8.8.8".to_string()),
    }
}

#[test]
fn create_wifi_use_case_shows_the_stored_profile() {
    let mut service = service();
    let response =
        CreateWifiConfigUseCaseImpl::new().execute(&mut service, wifi_request("Home")).unwrap();
    assert_eq!(response.config.ssid, "Home");
    assert_eq!(response.config.security_type, WifiSecurityType::WPA2);
    assert!(!response.config.is_active);
    let stored = service.get_wifi_configs().unwrap();
    assert_eq!(stored.len(), 1);
    assert_eq!(stored[0].id, response.config.id);
    assert_eq!(stored[0].password, "secret");
    assert_eq!(stored[0].created_at.to_rfc3339(), response.config.created_at);
}

#[test]
fn activate_and_delete_wifi_use_cases() {
    let mut service = service();
    let create = CreateWifiConfigUseCaseImpl::new();
    let a = create.execute(&mut service, wifi_request("a")).unwrap().config;
    let b = create.execute(&mut service, wifi_request("b")).unwrap().config;
    let activate = ActivateWifiConfigUseCaseImpl::new();
    assert_eq!(activate.execute(&mut service, a.id.clone()), Ok(()));
    assert_eq!(service.get_active_wifi_config().unwrap().unwrap().id, a.id);
    assert_eq!(activate.execute(&mut service, b.id.clone()), Ok(()));
    assert_eq!(service.get_active_wifi_config().unwrap().unwrap().id, b.id);
    assert_eq!(
        activate.execute(&mut service, "missing".to_string()),
        Err("WiFi config not found".to_string())
    );
    let delete = DeleteWifiConfigUseCaseImpl::new();
    assert_eq!(delete.execute(&mut service, a.id.clone()), Ok(()));
    assert_eq!(delete.execute(&mut service, a.id.clone()), Ok(()));
    assert_eq!(service.get_wifi_configs().unwrap().len(), 1);
}

#[test]
fn static_ip_use_cases() {
    let mut service = service();
    let created = CreateStaticIpConfigUseCaseImpl::new()
        .execute(&mut service, static_ip_request("eth0"))
        .unwrap()
        .config;
    assert_eq!(created.interface_name, "eth0");
    assert_eq!(created.ip_address, "10.0.0.2");
    assert_eq!(created.subnet_mask, "255.255.255.0");
    assert_eq!(created.gateway, "10.0.0.1");
    assert_eq!(created.dns_primary, "1.1.1.1");
    assert_eq!(created.dns_secondary, Some("8.8.8.8".to_string()));
    assert!(!created.is_enabled);
    let enable = EnableStaticIpConfigUseCaseImpl::new();
    let disable = DisableStaticIpConfigUseCaseImpl::new();
    let delete = DeleteStaticIpConfigUseCaseImpl::new();
    assert_eq!(enable.execute(&mut service, created.id.clone()), Ok(()));
    assert!(service.get_static_ip_configs().unwrap()[0].is_enabled);
    assert_eq!(disable.execute(&mut service, created.id.clone()), Ok(()));
    assert!(!service.get_static_ip_configs().unwrap()[0].is_enabled);
    assert_eq!(
        enable.execute(&mut service, "missing".to_string()),
        Err("Static IP config not found".to_string())
    );
    assert_eq!(delete.execute(&mut service, created.id.clone()), Ok(()));
    assert_eq!(delete.execute(&mut service, created.id), Ok(()));
    assert!(service.get_static_ip_configs().unwrap().is_empty());
}

#[test]
fn settings_page_shows_everything() {
    let mut service = service();
    let create = CreateWifiConfigUseCaseImpl::new();
    let a = create.execute(&mut service, wifi_request("a")).unwrap().config;
    let _b = create.execute(&mut service, wifi_request("b")).unwrap().config;
    CreateStaticIpConfigUseCaseImpl::new()
        .execute(&mut service, static_ip_request("eth0"))
        .unwrap();
    let page = GetNetworkSettingsUseCaseImpl::new().execute(&service).unwrap();
    assert_eq!(page.wifi_configs.len(), 2);
    assert_eq!(page.static_ip_configs.len(), 1);
    assert_eq!(page.network_interfaces.len(), 3);
    assert_eq!(page.network_interfaces[0].name, "lo");
    assert_eq!(page.network_interfaces[1].current_ip, Some("192.168.1.100".to_string()));
    assert!(!page.network_interfaces[2].is_up);
    assert!(page.active_wifi.is_none());
    service.activate_wifi_config(&a.id).unwrap();
    let page = GetNetworkSettingsUseCaseImpl::new().execute(&service).unwrap();
    let active = page.active_wifi.unwrap();
    assert_eq!(active.id, a.id);
    assert!(active.is_active);
    assert_eq!(page.wifi_configs.iter().filter(|c| c.is_active).count(), 1);
}

#[test]
fn scan_use_case_shows_sanitized_networks() {
    let service = service();
    let readings = vec![ScanReading {
        mac: "".to_string(),
        ssid: "Home".to_string(),
        channel: "11".to_string(),
        signal_level: "-70".to_string(),
        security: "".to_string(),
    }];
    let shown = ScanWifiNetworksUseCaseImpl::new().execute(&service, Ok(readings)).unwrap();
    assert_eq!(shown.len(), 1);
    assert_eq!(shown[0].ssid, "Home");
    assert_eq!(shown[0].mac, "Unknown");
    assert_eq!(shown[0].channel, "11");
    let failed = ScanWifiNetworksUseCaseImpl::new().execute(&service, Err("NoMatch".to_string()));
    assert_eq!(failed.err(), Some("WiFi scan failed: NoMatch".to_string()));
}

#[test]
fn lists_are_shown_in_order() {
    let mut service = service();
    let create = CreateWifiConfigUseCaseImpl::new();
    create.execute(&mut service, wifi_request("a")).unwrap();
    create.execute(&mut service, wifi_request("b")).unwrap();
    let stored = service.get_wifi_configs().unwrap();
    let shown = show_wifi_configs(&stored);
    assert_eq!(shown.len(), 2);
    assert_eq!(shown[0].id, stored[0].id);
    assert_eq!(shown[1].id, stored[1].id);
    assert!(show_static_ip_configs(&Vec::new()).is_empty());
    let interfaces = service.get_network_interfaces().unwrap();
    let shown = show_interfaces(&interfaces);
    assert_eq!(shown.len(), 3);
    assert_eq!(shown[2].name, "wlan0");
    let networks = vec![ScannedWifiNetwork {
        ssid: "x".to_string(),
        mac: "y".to_string(),
        signal_level: "z".to_string(),
        channel: "1".to_string(),
        security: "s".to_string(),
    }];
    let shown = show_networks(&networks);
    assert_eq!(shown.len(), 1);
    assert_eq!(shown[0].signal_level, "z");
}

#[test]
fn greeting_use_cases() {
    let mut service = GreetingServiceImpl::new(InMemoryGreetingRepository::new());
    let shown = GetDefaultGreetingUseCaseImpl::new().execute(&service).unwrap();
    assert_eq!(shown.greeting.message, "Hello, World!");
    assert_eq!(shown.greeting.language, "en");
    assert!(ListGreetingsUseCaseImpl::new().execute(&service).unwrap().greetings.is_empty());
    let create = CreateGreetingUseCaseImpl::new();
    let plain = create
        .execute(
            &mut service,
            CreateGreetingRequest { message: "Hi".to_string(), language: None },
        )
        .unwrap();
    assert_eq!(plain.greeting.message, "Hi");
    assert_eq!(plain.greeting.language, "en");
    let german = create
        .execute(
            &mut service,
            CreateGreetingRequest { message: "Moin".to_string(), language: Some("de".to_string()) },
        )
        .unwrap();
    assert_eq!(german.greeting.language, "de");
    let listed = ListGreetingsUseCaseImpl::new().execute(&service).unwrap().greetings;
    assert_eq!(listed.len(), 2);
    assert_eq!(listed[0].id, plain.greeting.id);
    assert_eq!(listed[1].id, german.greeting.id);
    assert_eq!(listed[1].message, "Moin");
}

#[test]
fn greeting_service_and_store() {
    let mut service = GreetingServiceImpl::new(InMemoryGreetingRepository::default());
    let created = service.create_greeting("Salut".to_string(), "fr".to_string()).unwrap();
    assert_eq!(created.message, "Salut");
    assert_eq!(created.language, "fr");
    let found = service.get_greeting(&created.id).unwrap().unwrap();
    assert_eq!(found.message, "Salut");
    assert_eq!(found.created_at, created.created_at);
    assert!(service.get_greeting("missing").unwrap().is_none());
    let default = service.get_default_greeting().unwrap();
    assert_eq!(default.message, "Hello, World!");
    assert!(service.get_greeting(&default.id).unwrap().is_none());
    assert_eq!(service.list_greetings().unwrap().len(), 1);
}

#[test]
fn settings_page_of_given_lists() {
    let mut service = service();
    let create = CreateWifiConfigUseCaseImpl::new();
    let a = create.execute(&mut service, wifi_request("a")).unwrap().config;
    service.activate_wifi_config(&a.id).unwrap();
    let wifi = service.get_wifi_configs().unwrap();
    let interfaces = vec![fixed("eth0", InterfaceType::Ethernet, &["10.0.0.1"])];
    let page = settings_page(&wifi, &Vec::new(), &interfaces, Some(wifi[0].clone()));
    assert_eq!(page.wifi_configs.len(), 1);
    assert_eq!(page.wifi_configs[0].id, a.id);
    assert!(page.wifi_configs[0].is_active);
    assert!(page.static_ip_configs.is_empty());
    assert_eq!(page.network_interfaces.len(), 1);
    assert_eq!(page.network_interfaces[0].name, "eth0");
    assert_eq!(page.active_wifi.unwrap().id, a.id);
    let empty = settings_page(&Vec::new(), &Vec::new(), &Vec::new(), None);
    assert!(empty.wifi_configs.is_empty());
    assert!(empty.network_interfaces.is_empty());
    assert!(empty.active_wifi.is_none());
}

#[test]
fn page_after_failed_discovery_hands_the_error_on() {
    let mut service = service();
    let create = CreateWifiConfigUseCaseImpl::new();
    create.execute(&mut service, wifi_request("a")).unwrap();
    let wifi = service.get_wifi_configs().unwrap();
    let page = page_after_discovery(&service, &wifi, &Vec::new(), Err("no access".to_string()));
    assert_eq!(page.err(), Some("no access".to_string()));
}

#[test]
fn page_after_discovery_shows_what_the_host_listed() {
    let mut service = service();
    let create = CreateWifiConfigUseCaseImpl::new();
    let a = create.execute(&mut service, wifi_request("a")).unwrap().config;
    create.execute(&mut service, wifi_request("b")).unwrap();
    service.activate_wifi_config(&a.id).unwrap();
    let wifi = service.get_wifi_configs().unwrap();
    let listed = vec![
        fixed("lo", InterfaceType::Loopback, &["127.0.0.1"]),
        fixed("wlan0", InterfaceType::Wireless, &[]),
    ];
    let page = page_after_discovery(&service, &wifi, &Vec::new(), Ok(listed)).unwrap();
    assert_eq!(page.wifi_configs.len(), 2);
    assert_eq!(page.wifi_configs[0].id, a.id);
    assert!(page.static_ip_configs.is_empty());
    assert_eq!(page.network_interfaces.len(), 2);
    assert_eq!(page.network_interfaces[0].name, "lo");
    assert_eq!(page.network_interfaces[1].name, "wlan0");
    assert!(!page.network_interfaces[1].is_up);
    assert_eq!(page.active_wifi.unwrap().id, a.id);
}
