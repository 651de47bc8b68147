//! Transfer values of network configuration. A WiFi profile is shown without
//! its password, a creation time as RFC 3339 text.

use crate::domain::network_entities::{
    clone_optional_text, optional_text, InterfaceType, NetworkInterface, NetworkInterfaceView,
    ScannedWifiNetwork, ScannedWifiNetworkView, StaticIpConfig, StaticIpConfigView, WifiConfig,
    WifiConfigView, WifiSecurityType,
};
use vstd::prelude::*;
use vstd::std_specs::convert::FromSpecImpl;

verus! {

/// A WiFi profile as it is shown: everything but the password.
#[derive(Debug)]
pub struct WifiConfigDto {
    pub id: String,
    pub ssid: String,
    pub security_type: WifiSecurityType,
    pub is_active: bool,
    pub created_at: String,
}

/// What a `WifiConfigDto` holds.
pub struct WifiConfigDtoView {
    pub id: Seq<char>,
    pub ssid: Seq<char>,
    pub security_type: WifiSecurityType,
    pub is_active: bool,
    pub created_at: Seq<char>,
}

impl View for WifiConfigDto {
    type V = WifiConfigDtoView;

    open spec fn view(&self) -> WifiConfigDtoView {
        WifiConfigDtoView {
            id: self.id@,
            ssid: self.ssid@,
            security_type: self.security_type,
            is_active: self.is_active,
            created_at: self.created_at@,
        }
    }
}

/// How a WiFi profile is shown.
pub open spec fn wifi_dto(config: WifiConfigView) -> WifiConfigDtoView {
    WifiConfigDtoView {
        id: config.id,
        ssid: config.ssid,
        security_type: config.security_type,
        is_active: config.is_active,
        created_at: config.created_at.text(),
    }
}

impl From<WifiConfig> for WifiConfigDto {
    fn from(config: WifiConfig) -> (dto: Self)
        ensures
            dto@ == wifi_dto(config@),
    {
        WifiConfigDto {
            created_at: config.created_at.to_rfc3339(),
            id: config.id,
            ssid: config.ssid,
            security_type: config.security_type,
            is_active: config.is_active,
        }
    }
}

impl FromSpecImpl<WifiConfig> for WifiConfigDto {
    open spec fn obeys_from_spec() -> bool {
        false
    }

    open spec fn from_spec(config: WifiConfig) -> Self {
        choose|dto: Self| dto@ == wifi_dto(config@)
    }
}

impl From<&WifiConfig> for WifiConfigDto {
    fn from(config: &WifiConfig) -> (dto: Self)
        ensures
            dto@ == wifi_dto(config@),
    {
        WifiConfigDto {
            id: config.id.clone(),
            ssid: config.ssid.clone(),
            security_type: config.security_type,
            is_active: config.is_active,
            created_at: config.created_at.to_rfc3339(),
        }
    }
}

impl FromSpecImpl<&WifiConfig> for WifiConfigDto {
    open spec fn obeys_from_spec() -> bool {
        false
    }

    open spec fn from_spec(config: &WifiConfig) -> Self {
        choose|dto: Self| dto@ == wifi_dto(config@)
    }
}

/// A static-IP profile as it is shown.
#[derive(Debug)]
pub struct StaticIpConfigDto {
    pub id: String,
    pub interface_name: String,
    pub ip_address: String,
    pub subnet_mask: String,
    pub gateway: String,
    pub dns_primary: String,
    pub dns_secondary: Option<String>,
    pub is_enabled: bool,
    pub created_at: String,
}

/// What a `StaticIpConfigDto` holds.
pub struct StaticIpConfigDtoView {
    pub id: Seq<char>,
    pub interface_name: Seq<char>,
    pub ip_address: Seq<char>,
    pub subnet_mask: Seq<char>,
    pub gateway: Seq<char>,
    pub dns_primary: Seq<char>,
    pub dns_secondary: Option<Seq<char>>,
    pub is_enabled: bool,
    pub created_at: Seq<char>,
}

impl View for StaticIpConfigDto {
    type V = StaticIpConfigDtoView;

    open spec fn view(&self) -> StaticIpConfigDtoView {
        StaticIpConfigDtoView {
            id: self.id@,
            interface_name: self.interface_name@,
            ip_address: self.ip_address@,
            subnet_mask: self.subnet_mask@,
            gateway: self.gateway@,
            dns_primary: self.dns_primary@,
            dns_secondary: optional_text(self.dns_secondary),
            is_enabled: self.is_enabled,
            created_at: self.created_at@,
        }
    }
}

/// How a static-IP profile is shown.
pub open spec fn static_ip_dto(config: StaticIpConfigView) -> StaticIpConfigDtoView {
    StaticIpConfigDtoView {
        id: config.id,
        interface_name: config.interface_name,
        ip_address: config.ip_address,
        subnet_mask: config.subnet_mask,
        gateway: config.gateway,
        dns_primary: config.dns_primary,
        dns_secondary: config.dns_secondary,
        is_enabled: config.is_enabled,
        created_at: config.created_at.text(),
    }
}

impl From<StaticIpConfig> for StaticIpConfigDto {
    fn from(config: StaticIpConfig) -> (dto: Self)
        ensures
            dto@ == static_ip_dto(config@),
    {
        StaticIpConfigDto {
            created_at: config.created_at.to_rfc3339(),
            id: config.id,
            interface_name: config.interface_name,
            ip_address: config.ip_address,
            subnet_mask: config.subnet_mask,
            gateway: config.gateway,
            dns_primary: config.dns_primary,
            dns_secondary: config.dns_secondary,
            is_enabled: config.is_enabled,
        }
    }
}

impl FromSpecImpl<StaticIpConfig> for StaticIpConfigDto {
    open spec fn obeys_from_spec() -> bool {
        false
    }

    open spec fn from_spec(config: StaticIpConfig) -> Self {
        choose|dto: Self| dto@ == static_ip_dto(config@)
    }
}

impl From<&StaticIpConfig> for StaticIpConfigDto {
    fn from(config: &StaticIpConfig) -> (dto: Self)
        ensures
            dto@ == static_ip_dto(config@),
    {
        StaticIpConfigDto {
            id: config.id.clone(),
            interface_name: config.interface_name.clone(),
            ip_address: config.ip_address.clone(),
            subnet_mask: config.subnet_mask.clone(),
            gateway: config.gateway.clone(),
            dns_primary: config.dns_primary.clone(),
            dns_secondary: clone_optional_text(&config.dns_secondary),
            is_enabled: config.is_enabled,
            created_at: config.created_at.to_rfc3339(),
        }
    }
}

impl FromSpecImpl<&StaticIpConfig> for StaticIpConfigDto {
    open spec fn obeys_from_spec() -> bool {
        false
    }

    open spec fn from_spec(config: &StaticIpConfig) -> Self {
        choose|dto: Self| dto@ == static_ip_dto(config@)
    }
}

/// A network interface as it is shown: without its address lists.
#[derive(Debug)]
pub struct NetworkInterfaceDto {
    pub name: String,
    pub interface_type: InterfaceType,
    pub mac_address: String,
    pub is_up: bool,
    pub current_ip: Option<String>,
}

/// What a `NetworkInterfaceDto` holds.
pub struct NetworkInterfaceDtoView {
    pub name: Seq<char>,
    pub interface_type: InterfaceType,
    pub mac_address: Seq<char>,
    pub is_up: bool,
    pub current_ip: Option<Seq<char>>,
}

impl View for NetworkInterfaceDto {
    type V = NetworkInterfaceDtoView;

    open spec fn view(&self) -> NetworkInterfaceDtoView {
        NetworkInterfaceDtoView {
            name: self.name@,
            interface_type: self.interface_type,
            mac_address: self.mac_address@,
            is_up: self.is_up,
            current_ip: optional_text(self.current_ip),
        }
    }
}

/// How a network interface is shown.
pub open spec fn interface_dto(interface: NetworkInterfaceView) -> NetworkInterfaceDtoView {
    NetworkInterfaceDtoView {
        name: interface.name,
        interface_type: interface.interface_type,
        mac_address: interface.mac_address,
        is_up: interface.is_up,
        current_ip: interface.current_ip,
    }
}

impl From<NetworkInterface> for NetworkInterfaceDto {
    fn from(interface: NetworkInterface) -> (dto: Self)
        ensures
            dto@ == interface_dto(interface@),
    {
        NetworkInterfaceDto {
            name: interface.name,
            interface_type: interface.interface_type,
            mac_address: interface.mac_address,
            is_up: interface.is_up,
            current_ip: interface.current_ip,
        }
    }
}

impl FromSpecImpl<NetworkInterface> for NetworkInterfaceDto {
    open spec fn obeys_from_spec() -> bool {
        false
    }

    open spec fn from_spec(interface: NetworkInterface) -> Self {
        choose|dto: Self| dto@ == interface_dto(interface@)
    }
}

impl From<&NetworkInterface> for NetworkInterfaceDto {
    fn from(interface: &NetworkInterface) -> (dto: Self)
        ensures
            dto@ == interface_dto(interface@),
    {
        NetworkInterfaceDto {
            name: interface.name.clone(),
            interface_type: interface.interface_type,
            mac_address: interface.mac_address.clone(),
            is_up: interface.is_up,
            current_ip: clone_optional_text(&interface.current_ip),
        }
    }
}

impl FromSpecImpl<&NetworkInterface> for NetworkInterfaceDto {
    open spec fn obeys_from_spec() -> bool {
        false
    }

    open spec fn from_spec(interface: &NetworkInterface) -> Self {
        choose|dto: Self| dto@ == interface_dto(interface@)
    }
}

/// A scanned WiFi network as it is shown.
#[derive(Debug)]
pub struct ScannedWifiNetworkDto {
    pub ssid: String,
    pub mac: String,
    pub signal_level: String,
    pub channel: String,
    pub security: String,
}

impl View for ScannedWifiNetworkDto {
    type V = ScannedWifiNetworkView;

    open spec fn view(&self) -> ScannedWifiNetworkView {
        ScannedWifiNetworkView {
            ssid: self.ssid@,
            mac: self.mac@,
            signal_level: self.signal_level@,
            channel: self.channel@,
            security: self.security@,
        }
    }
}

impl From<ScannedWifiNetwork> for ScannedWifiNetworkDto {
    fn from(network: ScannedWifiNetwork) -> (dto: Self)
        ensures
            dto@ == network@,
    {
        ScannedWifiNetworkDto {
            ssid: network.ssid,
            mac: network.mac,
            signal_level: network.signal_level,
            channel: network.channel,
            security: network.security,
        }
    }
}

impl FromSpecImpl<ScannedWifiNetwork> for ScannedWifiNetworkDto {
    open spec fn obeys_from_spec() -> bool {
        false
    }

    open spec fn from_spec(network: ScannedWifiNetwork) -> Self {
        choose|dto: Self| dto@ == network@
    }
}

/// What is asked for when a WiFi profile is to be created.
#[derive(Debug)]
pub struct CreateWifiConfigRequest {
    pub ssid: String,
    pub password: String,
    pub security_type: WifiSecurityType,
}

/// What is asked for when a static-IP profile is to be created.
#[derive(Debug)]
pub struct CreateStaticIpConfigRequest {
    pub interface_name: String,
    pub ip_address: String,
    pub subnet_mask: String,
    pub gateway: String,
    pub dns_primary: String,
    pub dns_secondary: Option<String>,
}

#[derive(Debug)]
pub struct WifiConfigResponse {
    pub config: WifiConfigDto,
}

#[derive(Debug)]
pub struct WifiConfigsListResponse {
    pub configs: Vec<WifiConfigDto>,
}

#[derive(Debug)]
pub struct StaticIpConfigResponse {
    pub config: StaticIpConfigDto,
}

#[derive(Debug)]
pub struct StaticIpConfigsListResponse {
    pub configs: Vec<StaticIpConfigDto>,
}

#[derive(Debug)]
pub struct NetworkInterfacesResponse {
    pub interfaces: Vec<NetworkInterfaceDto>,
}

/// Everything that the settings page shows.
#[derive(Debug)]
pub struct NetworkSettingsPageData {
    pub wifi_configs: Vec<WifiConfigDto>,
    pub static_ip_configs: Vec<StaticIpConfigDto>,
    pub network_interfaces: Vec<NetworkInterfaceDto>,
    pub active_wifi: Option<WifiConfigDto>,
}

} // verus!
