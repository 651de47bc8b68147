//! The use cases of network configuration: each takes a request of the
//! presentation layer to the service and shows the answer.

use crate::application::network_dto::{
    interface_dto, static_ip_dto, wifi_dto, CreateStaticIpConfigRequest, CreateWifiConfigRequest,
    NetworkInterfaceDto, NetworkInterfaceDtoView, NetworkSettingsPageData, ScannedWifiNetworkDto,
    StaticIpConfigDto, StaticIpConfigDtoView, StaticIpConfigResponse, WifiConfigDto,
    WifiConfigDtoView, WifiConfigResponse,
};
use crate::domain::network_entities::{
    optional_text, NetworkInterface, NetworkInterfaceView, ScanReading, ScannedWifiNetwork,
    StaticIpConfig, StaticIpConfigView, WifiConfig, WifiConfigView,
};
use crate::domain::network_repositories::{
    set_active_outcome, toggle_outcome, valid_listing, StaticIpProfiles, WifiProfiles,
};
use crate::domain::network_services::{
    create_static_ip_outcome, create_wifi_outcome, sanitized_scan, scan_failure,
    NetworkConfigService,
};
use crate::domain::store::delete_outcome;
use crate::keyed::{lists_all, views};
use vstd::prelude::*;

verus! {

/// The shown profiles are those of a listing of all WiFi profiles.
pub open spec fn shows_all_wifi(shown: Seq<WifiConfigDtoView>, profiles: WifiProfiles) -> bool {
    exists|listing: Seq<WifiConfigView>| #[trigger]
        lists_all(listing, profiles) && shown == listing.map_values(
            |c: WifiConfigView| wifi_dto(c),
        )
}

/// The shown profiles are those of a listing of all static-IP profiles.
pub open spec fn shows_all_static_ip(
    shown: Seq<StaticIpConfigDtoView>,
    profiles: StaticIpProfiles,
) -> bool {
    exists|listing: Seq<StaticIpConfigView>| #[trigger]
        lists_all(listing, profiles) && shown == listing.map_values(
            |c: StaticIpConfigView| static_ip_dto(c),
        )
}

/// The shown interfaces are those of a valid listing.
pub open spec fn shows_interfaces(shown: Seq<NetworkInterfaceDtoView>) -> bool {
    exists|listing: Seq<NetworkInterfaceView>| #[trigger]
        valid_listing(listing) && shown == listing.map_values(
            |i: NetworkInterfaceView| interface_dto(i),
        )
}

/// The shown profile is a stored one that is active, or none is shown and
/// none is active.
pub open spec fn shows_active_wifi(shown: Option<WifiConfigDto>, profiles: WifiProfiles) -> bool {
    match shown {
        Some(dto) => exists|id: Seq<char>|
            profiles.contains_key(id) && (#[trigger] profiles[id]).is_active && dto@ == wifi_dto(
                profiles[id],
            ),
        None => forall|id: Seq<char>|
            profiles.contains_key(id) ==> !(#[trigger] profiles[id]).is_active,
    }
}

/// A settings page that was put together shows all profiles of both kinds,
/// the interfaces of the host and the active WiFi profile. It is not put
/// together where a store or the discovery fails.
pub open spec fn settings_page_outcome(
    wifi: WifiProfiles,
    static_ip: StaticIpProfiles,
    page: Result<NetworkSettingsPageData, String>,
) -> bool {
    match page {
        Ok(data) => {
            &&& shows_all_wifi(views(data.wifi_configs@), wifi)
            &&& shows_all_static_ip(views(data.static_ip_configs@), static_ip)
            &&& shows_interfaces(views(data.network_interfaces@))
            &&& shows_active_wifi(data.active_wifi, wifi)
        },
        Err(_) => true,
    }
}

/// Shows each profile of a list.
pub fn show_wifi_configs(list: &Vec<WifiConfig>) -> (shown: Vec<WifiConfigDto>)
    ensures
        views(shown@) == views(list@).map_values(|c: WifiConfigView| wifi_dto(c)),
{
    let mut shown: Vec<WifiConfigDto> = Vec::new();
    let mut k: usize = 0;
    while k < list.len()
        invariant
            k <= list.len(),
            shown@.len() == k,
            forall|m: int| 0 <= m < k ==> (#[trigger] shown@[m])@ == wifi_dto(list@[m]@),
        decreases list.len() - k,
    {
        shown.push(WifiConfigDto::from(&list[k]));
        k += 1;
    }
    shown
}

/// Shows each profile of a list.
pub fn show_static_ip_configs(list: &Vec<StaticIpConfig>) -> (shown: Vec<StaticIpConfigDto>)
    ensures
        views(shown@) == views(list@).map_values(
            |c: StaticIpConfigView| static_ip_dto(c),
        ),
{
    let mut shown: Vec<StaticIpConfigDto> = Vec::new();
    let mut k: usize = 0;
    while k < list.len()
        invariant
            k <= list.len(),
            shown@.len() == k,
            forall|m: int| 0 <= m < k ==> (#[trigger] shown@[m])@ == static_ip_dto(list@[m]@),
        decreases list.len() - k,
    {
        shown.push(StaticIpConfigDto::from(&list[k]));
        k += 1;
    }
    shown
}

/// Shows each interface of a list.
pub fn show_interfaces(list: &Vec<NetworkInterface>) -> (shown: Vec<NetworkInterfaceDto>)
    ensures
        views(shown@) == views(list@).map_values(
            |i: NetworkInterfaceView| interface_dto(i),
        ),
{
    let mut shown: Vec<NetworkInterfaceDto> = Vec::new();
    let mut k: usize = 0;
    while k < list.len()
        invariant
            k <= list.len(),
            shown@.len() == k,
            forall|m: int| 0 <= m < k ==> (#[trigger] shown@[m])@ == interface_dto(list@[m]@),
        decreases list.len() - k,
    {
        shown.push(NetworkInterfaceDto::from(&list[k]));
        k += 1;
    }
    shown
}

/// Shows each network of a list.
pub fn show_networks(list: &Vec<ScannedWifiNetwork>) -> (shown: Vec<ScannedWifiNetworkDto>)
    ensures
        views(shown@) == views(list@),
{
    let mut shown: Vec<ScannedWifiNetworkDto> = Vec::new();
    let mut k: usize = 0;
    while k < list.len()
        invariant
            k <= list.len(),
            shown@.len() == k,
            forall|m: int| 0 <= m < k ==> (#[trigger] shown@[m])@ == list@[m]@,
        decreases list.len() - k,
    {
        shown.push(ScannedWifiNetworkDto::from(list[k].clone()));
        k += 1;
    }
    shown
}

/// The settings page that shows the given profiles and interfaces, each
/// list in its order.
pub fn settings_page(
    wifi: &Vec<WifiConfig>,
    static_ip: &Vec<StaticIpConfig>,
    interfaces: &Vec<NetworkInterface>,
    active: Option<WifiConfig>,
) -> (data: NetworkSettingsPageData)
    ensures
        views(data.wifi_configs@) == views(wifi@).map_values(|c: WifiConfigView| wifi_dto(c)),
        views(data.static_ip_configs@) == views(static_ip@).map_values(
            |c: StaticIpConfigView| static_ip_dto(c),
        ),
        views(data.network_interfaces@) == views(interfaces@).map_values(
            |i: NetworkInterfaceView| interface_dto(i),
        ),
        match active {
            Some(config) => data.active_wifi matches Some(shown) && shown@ == wifi_dto(config@),
            None => data.active_wifi is None,
        },
{
    NetworkSettingsPageData {
        wifi_configs: show_wifi_configs(wifi),
        static_ip_configs: show_static_ip_configs(static_ip),
        network_interfaces: show_interfaces(interfaces),
        active_wifi: match active {
            Some(config) => Some(WifiConfigDto::from(config)),
            None => None,
        },
    }
}

/// What the settings page is once the host has answered. Where the host
/// could not list its interfaces, its error is handed on as it is. Where it
/// could, the page shows the given profiles, the interfaces that the host
/// listed and the active WiFi profile of the service; with dependable stores
/// this does not fail.
pub open spec fn page_after_discovery_outcome(
    dependable: bool,
    held: WifiProfiles,
    wifi: Seq<WifiConfigView>,
    static_ip: Seq<StaticIpConfigView>,
    interfaces: Result<Vec<NetworkInterface>, String>,
    page: Result<NetworkSettingsPageData, String>,
) -> bool {
    match interfaces {
        Err(cause) => page == Err::<NetworkSettingsPageData, String>(cause),
        Ok(list) => match page {
            Ok(data) => {
                &&& views(data.wifi_configs@) == wifi.map_values(|c: WifiConfigView| wifi_dto(c))
                &&& views(data.static_ip_configs@) == static_ip.map_values(
                    |c: StaticIpConfigView| static_ip_dto(c),
                )
                &&& views(data.network_interfaces@) == views(list@).map_values(
                    |i: NetworkInterfaceView| interface_dto(i),
                )
                &&& shows_active_wifi(data.active_wifi, held)
            },
            Err(_) => !dependable,
        },
    }
}

/// Finishes the settings page with the host's answer to the question for
/// its interfaces: the profiles have been listed, the active WiFi profile is
/// asked for only where the host has answered.
pub fn page_after_discovery<N: NetworkConfigService>(
    service: &N,
    wifi: &Vec<WifiConfig>,
    static_ip: &Vec<StaticIpConfig>,
    interfaces: Result<Vec<NetworkInterface>, String>,
) -> (page: Result<NetworkSettingsPageData, String>)
    ensures
        page_after_discovery_outcome(
            N::dependable(),
            service.wifi_profiles(),
            views(wifi@),
            views(static_ip@),
            interfaces,
            page,
        ),
{
    match interfaces {
        Ok(list) => {
            let active = service.get_active_wifi_config()?;
            Ok(settings_page(wifi, static_ip, &list, active))
        },
        Err(cause) => Err(cause),
    }
}

/// Puts the settings page together.
pub trait GetNetworkSettingsUseCase<N: NetworkConfigService> {
    fn execute(&self, service: &N) -> (page: Result<NetworkSettingsPageData, String>)
        ensures
            settings_page_outcome(service.wifi_profiles(), service.static_ip_profiles(), page),
    ;
}

/// Creates a WiFi profile and shows it.
pub trait CreateWifiConfigUseCase<N: NetworkConfigService> {
    fn execute(&self, service: &mut N, request: CreateWifiConfigRequest) -> (response: Result<
        WifiConfigResponse,
        String,
    >)
        ensures
            match response {
                Ok(shown) => exists|config: WifiConfig| #[trigger]
                    create_wifi_outcome(
                        N::dependable(),
                        old(service).wifi_profiles(),
                        final(service).wifi_profiles(),
                        request.ssid@,
                        request.password@,
                        request.security_type,
                        Ok(config),
                    ) && shown.config@ == wifi_dto(config@),
                Err(_) => !N::dependable() && final(service).wifi_profiles() == old(
                    service,
                ).wifi_profiles(),
            },
            final(service).static_ip_profiles() == old(service).static_ip_profiles(),
    ;
}

/// Makes one WiFi profile the active one.
pub trait ActivateWifiConfigUseCase<N: NetworkConfigService> {
    fn execute(&self, service: &mut N, config_id: String) -> (done: Result<(), String>)
        ensures
            set_active_outcome(
                N::dependable(),
                old(service).wifi_profiles(),
                final(service).wifi_profiles(),
                config_id@,
                done,
            ),
            final(service).static_ip_profiles() == old(service).static_ip_profiles(),
    ;
}

/// Deletes a WiFi profile.
pub trait DeleteWifiConfigUseCase<N: NetworkConfigService> {
    fn execute(&self, service: &mut N, config_id: String) -> (done: Result<(), String>)
        ensures
            delete_outcome(
                N::dependable(),
                old(service).wifi_profiles(),
                final(service).wifi_profiles(),
                config_id@,
                done,
            ),
            final(service).static_ip_profiles() == old(service).static_ip_profiles(),
    ;
}

/// Creates a static-IP profile and shows it.
pub trait CreateStaticIpConfigUseCase<N: NetworkConfigService> {
    fn execute(&self, service: &mut N, request: CreateStaticIpConfigRequest) -> (response: Result<
        StaticIpConfigResponse,
        String,
    >)
        ensures
            match response {
                Ok(shown) => exists|config: StaticIpConfig| #[trigger]
                    create_static_ip_outcome(
                        N::dependable(),
                        old(service).static_ip_profiles(),
                        final(service).static_ip_profiles(),
                        request.interface_name@,
                        request.ip_address@,
                        request.subnet_mask@,
                        request.gateway@,
                        request.dns_primary@,
                        optional_text(request.dns_secondary),
                        Ok(config),
                    ) && shown.config@ == static_ip_dto(config@),
                Err(_) => !N::dependable() && final(service).static_ip_profiles() == old(
                    service,
                ).static_ip_profiles(),
            },
            final(service).wifi_profiles() == old(service).wifi_profiles(),
    ;
}

/// Enables a static-IP profile.
pub trait EnableStaticIpConfigUseCase<N: NetworkConfigService> {
    fn execute(&self, service: &mut N, config_id: String) -> (done: Result<(), String>)
        ensures
            toggle_outcome(
                N::dependable(),
                old(service).static_ip_profiles(),
                final(service).static_ip_profiles(),
                config_id@,
                true,
                done,
            ),
            final(service).wifi_profiles() == old(service).wifi_profiles(),
    ;
}

/// Disables a static-IP profile.
pub trait DisableStaticIpConfigUseCase<N: NetworkConfigService> {
    fn execute(&self, service: &mut N, config_id: String) -> (done: Result<(), String>)
        ensures
            toggle_outcome(
                N::dependable(),
                old(service).static_ip_profiles(),
                final(service).static_ip_profiles(),
                config_id@,
                false,
                done,
            ),
            final(service).wifi_profiles() == old(service).wifi_profiles(),
    ;
}

/// Deletes a static-IP profile.
pub trait DeleteStaticIpConfigUseCase<N: NetworkConfigService> {
    fn execute(&self, service: &mut N, config_id: String) -> (done: Result<(), String>)
        ensures
            delete_outcome(
                N::dependable(),
                old(service).static_ip_profiles(),
                final(service).static_ip_profiles(),
                config_id@,
                done,
            ),
            final(service).wifi_profiles() == old(service).wifi_profiles(),
    ;
}

/// Shows the networks of a scan that the host has made.
pub trait ScanWifiNetworksUseCase<N: NetworkConfigService> {
    fn execute(&self, service: &N, scan: Result<Vec<ScanReading>, String>) -> (found: Result<
        Vec<ScannedWifiNetworkDto>,
        String,
    >)
        ensures
            match scan {
                Ok(readings) => found matches Ok(shown) && views(shown@)
                    == sanitized_scan(views(readings@)),
                Err(cause) => found matches Err(e) && e@ == scan_failure(cause@),
            },
    ;
}

pub struct GetNetworkSettingsUseCaseImpl;

impl GetNetworkSettingsUseCaseImpl {
    pub fn new() -> Self {
        GetNetworkSettingsUseCaseImpl
    }
}

impl<N: NetworkConfigService> GetNetworkSettingsUseCase<N> for GetNetworkSettingsUseCaseImpl {
    fn execute(&self, service: &N) -> (page: Result<NetworkSettingsPageData, String>) {
        let wifi = service.get_wifi_configs()?;
        let static_ip = service.get_static_ip_configs()?;
        let interfaces = service.get_network_interfaces();
        page_after_discovery(service, &wifi, &static_ip, interfaces)
    }
}

pub struct CreateWifiConfigUseCaseImpl;

impl CreateWifiConfigUseCaseImpl {
    pub fn new() -> Self {
        CreateWifiConfigUseCaseImpl
    }
}

impl<N: NetworkConfigService> CreateWifiConfigUseCase<N> for CreateWifiConfigUseCaseImpl {
    fn execute(&self, service: &mut N, request: CreateWifiConfigRequest) -> (response: Result<
        WifiConfigResponse,
        String,
    >) {
        match service.create_wifi_config(request.ssid, request.password, request.security_type) {
            Ok(config) => Ok(WifiConfigResponse { config: WifiConfigDto::from(config) }),
            Err(e) => Err(e),
        }
    }
}

pub struct ActivateWifiConfigUseCaseImpl;

impl ActivateWifiConfigUseCaseImpl {
    pub fn new() -> Self {
        ActivateWifiConfigUseCaseImpl
    }
}

impl<N: NetworkConfigService> ActivateWifiConfigUseCase<N> for ActivateWifiConfigUseCaseImpl {
    fn execute(&self, service: &mut N, config_id: String) -> (done: Result<(), String>) {
        service.activate_wifi_config(config_id.as_str())
    }
}

pub struct DeleteWifiConfigUseCaseImpl;

impl DeleteWifiConfigUseCaseImpl {
    pub fn new() -> Self {
        DeleteWifiConfigUseCaseImpl
    }
}

impl<N: NetworkConfigService> DeleteWifiConfigUseCase<N> for DeleteWifiConfigUseCaseImpl {
    fn execute(&self, service: &mut N, config_id: String) -> (done: Result<(), String>) {
        service.delete_wifi_config(config_id.as_str())
    }
}

pub struct CreateStaticIpConfigUseCaseImpl;

impl CreateStaticIpConfigUseCaseImpl {
    pub fn new() -> Self {
        CreateStaticIpConfigUseCaseImpl
    }
}

impl<N: NetworkConfigService> CreateStaticIpConfigUseCase<N> for CreateStaticIpConfigUseCaseImpl {
    fn execute(&self, service: &mut N, request: CreateStaticIpConfigRequest) -> (response: Result<
        StaticIpConfigResponse,
        String,
    >) {
        match service.create_static_ip_config(
            request.interface_name,
            request.ip_address,
            request.subnet_mask,
            request.gateway,
            request.dns_primary,
            request.dns_secondary,
        ) {
            Ok(config) => Ok(StaticIpConfigResponse { config: StaticIpConfigDto::from(config) }),
            Err(e) => Err(e),
        }
    }
}

pub struct EnableStaticIpConfigUseCaseImpl;

impl EnableStaticIpConfigUseCaseImpl {
    pub fn new() -> Self {
        EnableStaticIpConfigUseCaseImpl
    }
}

impl<N: NetworkConfigService> EnableStaticIpConfigUseCase<N> for EnableStaticIpConfigUseCaseImpl {
    fn execute(&self, service: &mut N, config_id: String) -> (done: Result<(), String>) {
        service.enable_static_ip(config_id.as_str())
    }
}

pub struct DisableStaticIpConfigUseCaseImpl;

impl DisableStaticIpConfigUseCaseImpl {
    pub fn new() -> Self {
        DisableStaticIpConfigUseCaseImpl
    }
}

impl<N: NetworkConfigService> DisableStaticIpConfigUseCase<N> for DisableStaticIpConfigUseCaseImpl {
    fn execute(&self, service: &mut N, config_id: String) -> (done: Result<(), String>) {
        service.disable_static_ip(config_id.as_str())
    }
}

pub struct DeleteStaticIpConfigUseCaseImpl;

impl DeleteStaticIpConfigUseCaseImpl {
    pub fn new() -> Self {
        DeleteStaticIpConfigUseCaseImpl
    }
}

impl<N: NetworkConfigService> DeleteStaticIpConfigUseCase<N> for DeleteStaticIpConfigUseCaseImpl {
    fn execute(&self, service: &mut N, config_id: String) -> (done: Result<(), String>) {
        service.delete_static_ip_config(config_id.as_str())
    }
}

pub struct ScanWifiNetworksUseCaseImpl;

impl ScanWifiNetworksUseCaseImpl {
    pub fn new() -> Self {
        ScanWifiNetworksUseCaseImpl
    }
}

impl<N: NetworkConfigService> ScanWifiNetworksUseCase<N> for ScanWifiNetworksUseCaseImpl {
    fn execute(&self, service: &N, scan: Result<Vec<ScanReading>, String>) -> (found: Result<
        Vec<ScannedWifiNetworkDto>,
        String,
    >) {
        let networks = service.scan_wifi_networks(scan)?;
        Ok(show_networks(&networks))
    }
}

} // verus!
