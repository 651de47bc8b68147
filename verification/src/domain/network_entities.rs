//! Value types of the network configuration domain, each with the
//! mathematical value that contracts speak of.

use crate::domain::identity::{is_uuid_text, random_uuid_text};
use crate::domain::timestamp::Timestamp;
use crate::keyed::{views, Keyed};
use vstd::prelude::*;

verus! {

/// How a WiFi network is secured.
#[derive(Debug, Clone, Copy, PartialEq, Eq, Structural)]
pub enum WifiSecurityType {
    Open,
    WEP,
    WPA,
    WPA2,
    WPA3,
}

/// A stored WiFi profile. The password is kept as given, in the clear:
/// nothing here hashes or hides it, a gap that is left open on purpose for
/// whoever hardens the system.
#[derive(Debug)]
pub struct WifiConfig {
    pub id: String,
    pub ssid: String,
    pub password: String,
    pub security_type: WifiSecurityType,
    pub is_active: bool,
    pub created_at: Timestamp,
}

/// What a `WifiConfig` holds.
pub struct WifiConfigView {
    pub id: Seq<char>,
    pub ssid: Seq<char>,
    pub password: Seq<char>,
    pub security_type: WifiSecurityType,
    pub is_active: bool,
    pub created_at: Timestamp,
}

impl WifiConfigView {
    /// The same profile with its active flag set to `active`.
    pub open spec fn with_active(self, active: bool) -> WifiConfigView {
        WifiConfigView { is_active: active, ..self }
    }
}

impl Keyed for WifiConfigView {
    open spec fn key(self) -> Seq<char> {
        self.id
    }
}

impl View for WifiConfig {
    type V = WifiConfigView;

    open spec fn view(&self) -> WifiConfigView {
        WifiConfigView {
            id: self.id@,
            ssid: self.ssid@,
            password: self.password@,
            security_type: self.security_type,
            is_active: self.is_active,
            created_at: self.created_at,
        }
    }
}

impl Clone for WifiConfig {
    fn clone(&self) -> (copy: Self)
        ensures
            copy == *self,
    {
        WifiConfig {
            id: self.id.clone(),
            ssid: self.ssid.clone(),
            password: self.password.clone(),
            security_type: self.security_type,
            is_active: self.is_active,
            created_at: self.created_at,
        }
    }
}

impl WifiConfig {
    /// The inactive profile with the given identifier and creation time.
    pub fn with_identity(
        id: String,
        created_at: Timestamp,
        ssid: String,
        password: String,
        security_type: WifiSecurityType,
    ) -> (config: Self)
        ensures
            config@ == (WifiConfigView {
                id: id@,
                ssid: ssid@,
                password: password@,
                security_type,
                is_active: false,
                created_at,
            }),
    {
        WifiConfig { id, ssid, password, security_type, is_active: false, created_at }
    }

    /// A new inactive profile, with a random identifier and the current time.
    pub fn new(ssid: String, password: String, security_type: WifiSecurityType) -> (config: Self)
        ensures
            config@ == (WifiConfigView {
                id: config@.id,
                ssid: ssid@,
                password: password@,
                security_type,
                is_active: false,
                created_at: config@.created_at,
            }),
            is_uuid_text(config@.id),
    {
        Self::with_identity(random_uuid_text(), Timestamp::now(), ssid, password, security_type)
    }
}

/// A stored static-IP profile. Addresses are kept as given, unparsed.
#[derive(Debug)]
pub struct StaticIpConfig {
    pub id: String,
    pub interface_name: String,
    pub ip_address: String,
    pub subnet_mask: String,
    pub gateway: String,
    pub dns_primary: String,
    pub dns_secondary: Option<String>,
    pub is_enabled: bool,
    pub created_at: Timestamp,
}

/// What a `StaticIpConfig` holds.
pub struct StaticIpConfigView {
    pub id: Seq<char>,
    pub interface_name: Seq<char>,
    pub ip_address: Seq<char>,
    pub subnet_mask: Seq<char>,
    pub gateway: Seq<char>,
    pub dns_primary: Seq<char>,
    pub dns_secondary: Option<Seq<char>>,
    pub is_enabled: bool,
    pub created_at: Timestamp,
}

impl StaticIpConfigView {
    /// The same profile with its enabled flag set to `enabled`.
    pub open spec fn with_enabled(self, enabled: bool) -> StaticIpConfigView {
        StaticIpConfigView { is_enabled: enabled, ..self }
    }
}

/// The characters of an optional text.
pub open spec fn optional_text(text: Option<String>) -> Option<Seq<char>> {
    match text {
        Some(t) => Some(t@),
        None => None,
    }
}

/// A copy of an optional text.
pub(crate) fn clone_optional_text(text: &Option<String>) -> (copy: Option<String>)
    ensures
        copy == *text,
{
    match text {
        Some(t) => Some(t.clone()),
        None => None,
    }
}

impl Keyed for StaticIpConfigView {
    open spec fn key(self) -> Seq<char> {
        self.id
    }
}

impl View for StaticIpConfig {
    type V = StaticIpConfigView;

    open spec fn view(&self) -> StaticIpConfigView {
        StaticIpConfigView {
            id: self.id@,
            interface_name: self.interface_name@,
            ip_address: self.ip_address@,
            subnet_mask: self.subnet_mask@,
            gateway: self.gateway@,
            dns_primary: self.dns_primary@,
            dns_secondary: optional_text(self.dns_secondary),
            is_enabled: self.is_enabled,
            created_at: self.created_at,
        }
    }
}

impl Clone for StaticIpConfig {
    fn clone(&self) -> (copy: Self)
        ensures
            copy == *self,
    {
        StaticIpConfig {
            id: self.id.clone(),
            interface_name: self.interface_name.clone(),
            ip_address: self.ip_address.clone(),
            subnet_mask: self.subnet_mask.clone(),
            gateway: self.gateway.clone(),
            dns_primary: self.dns_primary.clone(),
            dns_secondary: clone_optional_text(&self.dns_secondary),
            is_enabled: self.is_enabled,
            created_at: self.created_at,
        }
    }
}

impl StaticIpConfig {
    /// The disabled profile with the given identifier and creation time.
    pub fn with_identity(
        id: String,
        created_at: Timestamp,
        interface_name: String,
        ip_address: String,
        subnet_mask: String,
        gateway: String,
        dns_primary: String,
        dns_secondary: Option<String>,
    ) -> (config: Self)
        ensures
            config@ == (StaticIpConfigView {
                id: id@,
                interface_name: interface_name@,
                ip_address: ip_address@,
                subnet_mask: subnet_mask@,
                gateway: gateway@,
                dns_primary: dns_primary@,
                dns_secondary: optional_text(dns_secondary),
                is_enabled: false,
                created_at,
            }),
    {
        StaticIpConfig {
            id,
            interface_name,
            ip_address,
            subnet_mask,
            gateway,
            dns_primary,
            dns_secondary,
            is_enabled: false,
            created_at,
        }
    }

    /// A new disabled profile, with a random identifier and the current time.
    pub fn new(
        interface_name: String,
        ip_address: String,
        subnet_mask: String,
        gateway: String,
        dns_primary: String,
        dns_secondary: Option<String>,
    ) -> (config: Self)
        ensures
            config@ == (StaticIpConfigView {
                id: config@.id,
                interface_name: interface_name@,
                ip_address: ip_address@,
                subnet_mask: subnet_mask@,
                gateway: gateway@,
                dns_primary: dns_primary@,
                dns_secondary: optional_text(dns_secondary),
                is_enabled: false,
                created_at: config@.created_at,
            }),
            is_uuid_text(config@.id),
    {
        Self::with_identity(
            random_uuid_text(),
            Timestamp::now(),
            interface_name,
            ip_address,
            subnet_mask,
            gateway,
            dns_primary,
            dns_secondary,
        )
    }
}

/// How a network interface is attached, as far as its name tells.
#[derive(Debug, Clone, Copy, PartialEq, Eq, Structural)]
pub enum InterfaceType {
    Ethernet,
    Wireless,
    Loopback,
    Other,
}

/// The kind of an interface, read off the start of its name. Loopback is
/// tried first, then wireless, then wired.
pub open spec fn classify_interface_name(name: Seq<char>) -> InterfaceType {
    if "lo"@.is_prefix_of(name) {
        InterfaceType::Loopback
    } else if "wl"@.is_prefix_of(name) || "wifi"@.is_prefix_of(name) || "wlan"@.is_prefix_of(name) {
        InterfaceType::Wireless
    } else if "eth"@.is_prefix_of(name) || "en"@.is_prefix_of(name) {
        InterfaceType::Ethernet
    } else {
        InterfaceType::Other
    }
}

/// A network interface of the host as it is reported: never stored, made
/// anew on every query.
#[derive(Debug)]
pub struct NetworkInterface {
    pub name: String,
    pub interface_type: InterfaceType,
    pub mac_address: String,
    pub is_up: bool,
    pub ipv4_addresses: Vec<String>,
    pub ipv6_addresses: Vec<String>,
    pub current_ip: Option<String>,
}

/// What a `NetworkInterface` holds.
pub struct NetworkInterfaceView {
    pub name: Seq<char>,
    pub interface_type: InterfaceType,
    pub mac_address: Seq<char>,
    pub is_up: bool,
    pub ipv4_addresses: Seq<Seq<char>>,
    pub ipv6_addresses: Seq<Seq<char>>,
    pub current_ip: Option<Seq<char>>,
}

impl View for NetworkInterface {
    type V = NetworkInterfaceView;

    open spec fn view(&self) -> NetworkInterfaceView {
        NetworkInterfaceView {
            name: self.name@,
            interface_type: self.interface_type,
            mac_address: self.mac_address@,
            is_up: self.is_up,
            ipv4_addresses: views(self.ipv4_addresses@),
            ipv6_addresses: views(self.ipv6_addresses@),
            current_ip: optional_text(self.current_ip),
        }
    }
}

/// A copy of a list of texts.
pub(crate) fn clone_texts(list: &Vec<String>) -> (copy: Vec<String>)
    ensures
        views(copy@) == views(list@),
        copy@.len() == list@.len(),
{
    let mut copy: Vec<String> = Vec::new();
    let mut i: usize = 0;
    while i < list.len()
        invariant
            i <= list.len(),
            copy@.len() == i,
            forall|k: int| 0 <= k < i ==> copy@[k] == list@[k],
        decreases list.len() - i,
    {
        copy.push(list[i].clone());
        i += 1;
    }
    copy
}

impl Clone for NetworkInterface {
    fn clone(&self) -> (copy: Self)
        ensures
            copy@ == self@,
    {
        NetworkInterface {
            name: self.name.clone(),
            interface_type: self.interface_type,
            mac_address: self.mac_address.clone(),
            is_up: self.is_up,
            ipv4_addresses: clone_texts(&self.ipv4_addresses),
            ipv6_addresses: clone_texts(&self.ipv6_addresses),
            current_ip: clone_optional_text(&self.current_ip),
        }
    }
}

/// One entry of a WiFi scan as the host reports it. Any field may be empty.
#[derive(Debug)]
pub struct ScanReading {
    pub mac: String,
    pub ssid: String,
    pub channel: String,
    pub signal_level: String,
    pub security: String,
}

/// What a `ScanReading` holds.
pub struct ScanReadingView {
    pub mac: Seq<char>,
    pub ssid: Seq<char>,
    pub channel: Seq<char>,
    pub signal_level: Seq<char>,
    pub security: Seq<char>,
}

impl View for ScanReading {
    type V = ScanReadingView;

    open spec fn view(&self) -> ScanReadingView {
        ScanReadingView {
            mac: self.mac@,
            ssid: self.ssid@,
            channel: self.channel@,
            signal_level: self.signal_level@,
            security: self.security@,
        }
    }
}

/// A WiFi network seen in a scan, after sanitizing: its name, hardware
/// address and channel are never empty.
#[derive(Debug)]
pub struct ScannedWifiNetwork {
    pub ssid: String,
    pub mac: String,
    pub signal_level: String,
    pub channel: String,
    pub security: String,
}

/// What a `ScannedWifiNetwork` holds.
pub struct ScannedWifiNetworkView {
    pub ssid: Seq<char>,
    pub mac: Seq<char>,
    pub signal_level: Seq<char>,
    pub channel: Seq<char>,
    pub security: Seq<char>,
}

impl View for ScannedWifiNetwork {
    type V = ScannedWifiNetworkView;

    open spec fn view(&self) -> ScannedWifiNetworkView {
        ScannedWifiNetworkView {
            ssid: self.ssid@,
            mac: self.mac@,
            signal_level: self.signal_level@,
            channel: self.channel@,
            security: self.security@,
        }
    }
}

impl Clone for ScannedWifiNetwork {
    fn clone(&self) -> (copy: Self)
        ensures
            copy == *self,
    {
        ScannedWifiNetwork {
            ssid: self.ssid.clone(),
            mac: self.mac.clone(),
            signal_level: self.signal_level.clone(),
            channel: self.channel.clone(),
            security: self.security.clone(),
        }
    }
}

} // verus!
