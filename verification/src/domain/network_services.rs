//! The network configuration service: the one entry point to profiles,
//! interface discovery and WiFi scans.

use crate::domain::identity::is_uuid_text;
use crate::domain::network_entities::{
    optional_text, NetworkInterface, ScanReading, ScanReadingView, ScannedWifiNetwork,
    ScannedWifiNetworkView, StaticIpConfig, StaticIpConfigView, WifiConfig, WifiConfigView,
    WifiSecurityType,
};
use crate::domain::network_repositories::{
    find_active_outcome, set_active_outcome, toggle_outcome, valid_listing,
    NetworkInterfaceRepository, StaticIpConfigRepository, StaticIpProfiles, WifiConfigRepository,
    WifiProfiles,
};
use crate::domain::store::{delete_outcome, list_outcome};
use crate::keyed::views;
use vstd::prelude::*;

verus! {

/// What stands for a hardware address or a channel that a scan left empty.
pub open spec fn unknown() -> Seq<char> {
    "Unknown"@
}

/// The text itself, or the placeholder where it is empty.
pub open spec fn or_unknown(text: Seq<char>) -> Seq<char> {
    if text.len() == 0 {
        unknown()
    } else {
        text
    }
}

/// Whether a scan entry names its network. One that does not is dropped.
pub open spec fn names_network(reading: ScanReadingView) -> bool {
    reading.ssid.len() > 0
}

/// A scan entry made presentable: an empty hardware address or channel is
/// replaced, the rest passes through.
pub open spec fn sanitized_reading(reading: ScanReadingView) -> ScannedWifiNetworkView {
    ScannedWifiNetworkView {
        ssid: reading.ssid,
        mac: or_unknown(reading.mac),
        signal_level: reading.signal_level,
        channel: or_unknown(reading.channel),
        security: reading.security,
    }
}

/// The networks of a scan: the entries that name their network, in scan
/// order, each made presentable.
pub open spec fn sanitized_scan(readings: Seq<ScanReadingView>) -> Seq<ScannedWifiNetworkView> {
    readings.filter(|r: ScanReadingView| names_network(r)).map_values(
        |r: ScanReadingView| sanitized_reading(r),
    )
}

/// The error text for a failed scan, with the cause as the host gave it.
pub open spec fn scan_failure(cause: Seq<char>) -> Seq<char> {
    "WiFi scan failed: "@ + cause
}

/// What a scan gives for an answer of the host: the sanitized networks, or
/// the failure with its cause. A failed scan gives no networks at all.
pub open spec fn scan_outcome(
    scan: Result<Vec<ScanReading>, String>,
    found: Result<Vec<ScannedWifiNetwork>, String>,
) -> bool {
    match scan {
        Ok(readings) => found matches Ok(networks) && views(networks@) == sanitized_scan(
            views(readings@),
        ),
        Err(cause) => found matches Err(e) && e@ == scan_failure(cause@),
    }
}

/// One more entry of a scan is dropped or appended, sanitized.
pub proof fn lemma_sanitized_push(readings: Seq<ScanReadingView>, next: ScanReadingView)
    ensures
        sanitized_scan(readings.push(next)) == if names_network(next) {
            sanitized_scan(readings).push(sanitized_reading(next))
        } else {
            sanitized_scan(readings)
        },
{
    assert(readings.push(next).drop_last() =~= readings);
    reveal_with_fuel(Seq::filter, 2);
}

/// The text, or `Unknown` in its place where it is empty.
fn text_or_unknown(text: &String) -> (shown: String)
    ensures
        shown@ == or_unknown(text@),
{
    if text.as_str().is_empty() {
        String::from_str("Unknown")
    } else {
        text.clone()
    }
}

/// Drops the scan entries without a network name and fills in what the
/// others leave empty.
pub fn sanitize_scan(readings: &Vec<ScanReading>) -> (networks: Vec<ScannedWifiNetwork>)
    ensures
        views(networks@) == sanitized_scan(views(readings@)),
{
    let ghost all = views(readings@);
    let mut networks: Vec<ScannedWifiNetwork> = Vec::new();
    proof {
        reveal_with_fuel(Seq::filter, 1);
    }
    let mut i: usize = 0;
    while i < readings.len()
        invariant
            i <= readings.len(),
            all == views(readings@),
            views(networks@) == sanitized_scan(all.take(i as int)),
        decreases readings.len() - i,
    {
        let reading = &readings[i];
        proof {
            lemma_sanitized_push(all.take(i as int), all[i as int]);
            assert(all.take(i + 1) =~= all.take(i as int).push(all[i as int]));
        }
        if !reading.ssid.as_str().is_empty() {
            networks.push(
                ScannedWifiNetwork {
                    ssid: reading.ssid.clone(),
                    mac: text_or_unknown(&reading.mac),
                    signal_level: reading.signal_level.clone(),
                    channel: text_or_unknown(&reading.channel),
                    security: reading.security.clone(),
                },
            );
        }
        i += 1;
    }
    assert(all.take(all.len() as int) =~= all);
    networks
}

/// What creating a WiFi profile may do: a new inactive profile with the
/// given fields is stored and returned. A store that is not dependable may
/// refuse, and then holds what it held.
pub open spec fn create_wifi_outcome(
    dependable: bool,
    before: WifiProfiles,
    after: WifiProfiles,
    ssid: Seq<char>,
    password: Seq<char>,
    security_type: WifiSecurityType,
    created: Result<WifiConfig, String>,
) -> bool {
    match created {
        Ok(config) => {
            &&& config@ == (WifiConfigView {
                id: config@.id,
                ssid,
                password,
                security_type,
                is_active: false,
                created_at: config@.created_at,
            })
            &&& is_uuid_text(config@.id)
            &&& after == before.insert(config@.id, config@)
        },
        Err(_) => !dependable && after == before,
    }
}

/// What creating a static-IP profile may do: a new disabled profile with the
/// given fields is stored and returned. A store that is not dependable may
/// refuse, and then holds what it held.
pub open spec fn create_static_ip_outcome(
    dependable: bool,
    before: StaticIpProfiles,
    after: StaticIpProfiles,
    interface_name: Seq<char>,
    ip_address: Seq<char>,
    subnet_mask: Seq<char>,
    gateway: Seq<char>,
    dns_primary: Seq<char>,
    dns_secondary: Option<Seq<char>>,
    created: Result<StaticIpConfig, String>,
) -> bool {
    match created {
        Ok(config) => {
            &&& config@ == (StaticIpConfigView {
                id: config@.id,
                interface_name,
                ip_address,
                subnet_mask,
                gateway,
                dns_primary,
                dns_secondary,
                is_enabled: false,
                created_at: config@.created_at,
            })
            &&& is_uuid_text(config@.id)
            &&& after == before.insert(config@.id, config@)
        },
        Err(_) => !dependable && after == before,
    }
}

/// Everything that can be done with network configuration. No input is
/// validated: names, passwords and addresses are stored as given. Every
/// failure is handed to the caller as it comes; nothing is tried again.
///
/// A call that changes profiles takes the service by `&mut`, so it is atomic
/// with respect to every other call: callers that share a service put it
/// behind a lock. The two kinds of profiles are independent of each other.
pub trait NetworkConfigService {
    /// The WiFi profiles that the service holds.
    spec fn wifi_profiles(&self) -> WifiProfiles;

    /// The static-IP profiles that the service holds.
    spec fn static_ip_profiles(&self) -> StaticIpProfiles;

    /// Whether the stores behind the service fail only where a contract says
    /// so.
    spec fn dependable() -> bool;

    /// Stores a new inactive WiFi profile with a random identifier and
    /// returns it.
    fn create_wifi_config(
        &mut self,
        ssid: String,
        password: String,
        security_type: WifiSecurityType,
    ) -> (created: Result<WifiConfig, String>)
        ensures
            create_wifi_outcome(
                Self::dependable(),
                old(self).wifi_profiles(),
                final(self).wifi_profiles(),
                ssid@,
                password@,
                security_type,
                created,
            ),
            final(self).static_ip_profiles() == old(self).static_ip_profiles(),
    ;

    /// All WiFi profiles, in no particular order.
    fn get_wifi_configs(&self) -> (found: Result<Vec<WifiConfig>, String>)
        ensures
            list_outcome(Self::dependable(), self.wifi_profiles(), found),
    ;

    /// The active WiFi profile, if there is one.
    fn get_active_wifi_config(&self) -> (found: Result<Option<WifiConfig>, String>)
        ensures
            find_active_outcome(Self::dependable(), self.wifi_profiles(), found),
    ;

    /// Makes the WiFi profile called `id` the only active one. Where there
    /// is no such profile the call fails, and no profile is left active.
    fn activate_wifi_config(&mut self, id: &str) -> (done: Result<(), String>)
        ensures
            set_active_outcome(
                Self::dependable(),
                old(self).wifi_profiles(),
                final(self).wifi_profiles(),
                id@,
                done,
            ),
            final(self).static_ip_profiles() == old(self).static_ip_profiles(),
    ;

    /// Removes the WiFi profile called `id`. It is no error if there is
    /// none.
    fn delete_wifi_config(&mut self, id: &str) -> (done: Result<(), String>)
        ensures
            delete_outcome(
                Self::dependable(),
                old(self).wifi_profiles(),
                final(self).wifi_profiles(),
                id@,
                done,
            ),
            final(self).static_ip_profiles() == old(self).static_ip_profiles(),
    ;

    /// Stores a new disabled static-IP profile with a random identifier and
    /// returns it.
    fn create_static_ip_config(
        &mut self,
        interface_name: String,
        ip_address: String,
        subnet_mask: String,
        gateway: String,
        dns_primary: String,
        dns_secondary: Option<String>,
    ) -> (created: Result<StaticIpConfig, String>)
        ensures
            create_static_ip_outcome(
                Self::dependable(),
                old(self).static_ip_profiles(),
                final(self).static_ip_profiles(),
                interface_name@,
                ip_address@,
                subnet_mask@,
                gateway@,
                dns_primary@,
                optional_text(dns_secondary),
                created,
            ),
            final(self).wifi_profiles() == old(self).wifi_profiles(),
    ;

    /// All static-IP profiles, in no particular order.
    fn get_static_ip_configs(&self) -> (found: Result<Vec<StaticIpConfig>, String>)
        ensures
            list_outcome(Self::dependable(), self.static_ip_profiles(), found),
    ;

    /// Enables the static-IP profile called `id`, and touches no other.
    fn enable_static_ip(&mut self, id: &str) -> (done: Result<(), String>)
        ensures
            toggle_outcome(
                Self::dependable(),
                old(self).static_ip_profiles(),
                final(self).static_ip_profiles(),
                id@,
                true,
                done,
            ),
            final(self).wifi_profiles() == old(self).wifi_profiles(),
    ;

    /// Disables the static-IP profile called `id`, and touches no other.
    fn disable_static_ip(&mut self, id: &str) -> (done: Result<(), String>)
        ensures
            toggle_outcome(
                Self::dependable(),
                old(self).static_ip_profiles(),
                final(self).static_ip_profiles(),
                id@,
                false,
                done,
            ),
            final(self).wifi_profiles() == old(self).wifi_profiles(),
    ;

    /// Removes the static-IP profile called `id`. It is no error if there
    /// is none.
    fn delete_static_ip_config(&mut self, id: &str) -> (done: Result<(), String>)
        ensures
            delete_outcome(
                Self::dependable(),
                old(self).static_ip_profiles(),
                final(self).static_ip_profiles(),
                id@,
                done,
            ),
            final(self).wifi_profiles() == old(self).wifi_profiles(),
    ;

    /// The interfaces of the host, or the reason why they could not be
    /// listed.
    fn get_network_interfaces(&self) -> (found: Result<Vec<NetworkInterface>, String>)
        ensures
            found matches Ok(list) ==> valid_listing(views(list@)),
    ;

    /// The networks of a scan that the host has made, sanitized; or, where
    /// the scan failed, the failure with its cause.
    fn scan_wifi_networks(&self, scan: Result<Vec<ScanReading>, String>) -> (found: Result<
        Vec<ScannedWifiNetwork>,
        String,
    >)
        ensures
            scan_outcome(scan, found),
    ;

    /// Applies the WiFi profile called `id`, as far as this system goes:
    /// the host's network settings are not touched, and the call succeeds
    /// whatever `id` is.
    fn apply_wifi_config(&self, id: &str) -> (applied: Result<(), String>)
        ensures
            applied is Ok,
    ;

    /// Applies the static-IP profile called `id`, as far as this system
    /// goes: the host's network settings are not touched, and the call
    /// succeeds whatever `id` is.
    fn apply_static_ip_config(&self, id: &str) -> (applied: Result<(), String>)
        ensures
            applied is Ok,
    ;
}

/// The service over a store of WiFi profiles, a store of static-IP profiles
/// and a source of interfaces.
pub struct NetworkConfigServiceImpl<
    W: WifiConfigRepository,
    S: StaticIpConfigRepository,
    I: NetworkInterfaceRepository,
> {
    wifi_repository: W,
    static_ip_repository: S,
    interface_repository: I,
}

impl<
    W: WifiConfigRepository,
    S: StaticIpConfigRepository,
    I: NetworkInterfaceRepository,
> NetworkConfigServiceImpl<W, S, I> {
    /// The service over the given backends, with the profiles that they
    /// hold.
    pub fn new(wifi_repository: W, static_ip_repository: S, interface_repository: I) -> (service:
        Self)
        ensures
            service.wifi_profiles() == wifi_repository.profiles(),
            service.static_ip_profiles() == static_ip_repository.profiles(),
    {
        NetworkConfigServiceImpl { wifi_repository, static_ip_repository, interface_repository }
    }
}

impl<
    W: WifiConfigRepository,
    S: StaticIpConfigRepository,
    I: NetworkInterfaceRepository,
> NetworkConfigService for NetworkConfigServiceImpl<W, S, I> {
    closed spec fn wifi_profiles(&self) -> WifiProfiles {
        self.wifi_repository.profiles()
    }

    closed spec fn static_ip_profiles(&self) -> StaticIpProfiles {
        self.static_ip_repository.profiles()
    }

    open spec fn dependable() -> bool {
        W::dependable() && S::dependable()
    }

    fn create_wifi_config(
        &mut self,
        ssid: String,
        password: String,
        security_type: WifiSecurityType,
    ) -> (created: Result<WifiConfig, String>) {
        let config = WifiConfig::new(ssid, password, security_type);
        match self.wifi_repository.save(&config) {
            Ok(_) => Ok(config),
            Err(e) => Err(e),
        }
    }

    fn get_wifi_configs(&self) -> (found: Result<Vec<WifiConfig>, String>) {
        self.wifi_repository.find_all()
    }

    fn get_active_wifi_config(&self) -> (found: Result<Option<WifiConfig>, String>) {
        self.wifi_repository.find_active()
    }

    fn activate_wifi_config(&mut self, id: &str) -> (done: Result<(), String>) {
        self.wifi_repository.set_active(id)
    }

    fn delete_wifi_config(&mut self, id: &str) -> (done: Result<(), String>) {
        self.wifi_repository.delete(id)
    }

    fn create_static_ip_config(
        &mut self,
        interface_name: String,
        ip_address: String,
        subnet_mask: String,
        gateway: String,
        dns_primary: String,
        dns_secondary: Option<String>,
    ) -> (created: Result<StaticIpConfig, String>) {
        let config = StaticIpConfig::new(
            interface_name,
            ip_address,
            subnet_mask,
            gateway,
            dns_primary,
            dns_secondary,
        );
        match self.static_ip_repository.save(&config) {
            Ok(_) => Ok(config),
            Err(e) => Err(e),
        }
    }

    fn get_static_ip_configs(&self) -> (found: Result<Vec<StaticIpConfig>, String>) {
        self.static_ip_repository.find_all()
    }

    fn enable_static_ip(&mut self, id: &str) -> (done: Result<(), String>) {
        self.static_ip_repository.enable(id)
    }

    fn disable_static_ip(&mut self, id: &str) -> (done: Result<(), String>) {
        self.static_ip_repository.disable(id)
    }

    fn delete_static_ip_config(&mut self, id: &str) -> (done: Result<(), String>) {
        self.static_ip_repository.delete(id)
    }

    fn get_network_interfaces(&self) -> (found: Result<Vec<NetworkInterface>, String>) {
        self.interface_repository.get_interfaces()
    }

    fn scan_wifi_networks(&self, scan: Result<Vec<ScanReading>, String>) -> (found: Result<
        Vec<ScannedWifiNetwork>,
        String,
    >) {
        match scan {
            Ok(readings) => Ok(sanitize_scan(&readings)),
            Err(cause) => Err(String::from_str("WiFi scan failed: ").concat(cause.as_str())),
        }
    }

    fn apply_wifi_config(&self, id: &str) -> (applied: Result<(), String>) {
        Ok(())
    }

    fn apply_static_ip_config(&self, id: &str) -> (applied: Result<(), String>) {
        Ok(())
    }
}

} // verus!
