//! What the network configuration service asks of its backends.

use crate::domain::network_entities::{
    classify_interface_name, NetworkInterface, NetworkInterfaceView, StaticIpConfig,
    StaticIpConfigView, WifiConfig, WifiConfigView,
};
use crate::domain::store::{delete_outcome, find_outcome, list_outcome, save_outcome};
use crate::keyed::views;
use vstd::prelude::*;

verus! {

/// The WiFi profiles of a store, each under its identifier.
pub type WifiProfiles = Map<Seq<char>, WifiConfigView>;

/// The static-IP profiles of a store, each under its identifier.
pub type StaticIpProfiles = Map<Seq<char>, StaticIpConfigView>;

/// The error text for a WiFi profile that the store does not hold.
pub open spec fn wifi_not_found() -> Seq<char> {
    "WiFi config not found"@
}

/// The error text for a static-IP profile that the store does not hold.
pub open spec fn static_ip_not_found() -> Seq<char> {
    "Static IP config not found"@
}

/// The same profiles, none of them active.
pub open spec fn all_inactive(profiles: WifiProfiles) -> WifiProfiles {
    profiles.map_values(|p: WifiConfigView| p.with_active(false))
}

/// The same profiles, the one called `id` active and no other.
pub open spec fn activated(profiles: WifiProfiles, id: Seq<char>) -> WifiProfiles {
    all_inactive(profiles).insert(id, profiles[id].with_active(true))
}

/// At most one of the profiles is active.
pub open spec fn at_most_one_active(profiles: WifiProfiles) -> bool {
    forall|a: Seq<char>, b: Seq<char>|
        profiles.contains_key(a) && profiles.contains_key(b) && (#[trigger] profiles[a]).is_active
            && (#[trigger] profiles[b]).is_active ==> a == b
}

/// What asking for the active profile may return: a stored profile that is
/// active, or nothing where none is.
pub open spec fn find_active_outcome(
    dependable: bool,
    profiles: WifiProfiles,
    found: Result<Option<WifiConfig>, String>,
) -> bool {
    match found {
        Ok(Some(config)) => profiles.contains_key(config@.id) && profiles[config@.id] == config@
            && config@.is_active,
        Ok(None) => forall|id: Seq<char>|
            profiles.contains_key(id) ==> !(#[trigger] profiles[id]).is_active,
        Err(_) => !dependable,
    }
}

/// What activating `id` may do. Every profile is deactivated first, then the
/// one called `id` is activated. Where the store holds no such profile the
/// call fails and leaves every profile inactive. A store that is not
/// dependable may also fail for a reason of its own, before or after it has
/// deactivated the profiles.
pub open spec fn set_active_outcome(
    dependable: bool,
    before: WifiProfiles,
    after: WifiProfiles,
    id: Seq<char>,
    done: Result<(), String>,
) -> bool {
    match done {
        Ok(_) => before.contains_key(id) && after == activated(before, id),
        Err(e) => {
            &&& after == all_inactive(before) || (!dependable && after == before)
            &&& dependable ==> !before.contains_key(id) && e@ == wifi_not_found()
        },
    }
}

/// A store of WiFi profiles, told apart by their identifiers.
///
/// A store is `dependable` when it refuses an operation only for the reason
/// that the operation's contract names. The store in memory is; one that
/// keeps its profiles elsewhere may fail for reasons of its own, and for such
/// a store the contracts say what holds whether it failed or not.
pub trait WifiConfigRepository {
    /// The profiles that the store holds.
    spec fn profiles(&self) -> WifiProfiles;

    /// Whether the store fails only where a contract says so.
    spec fn dependable() -> bool;

    /// Inserts the profile, or overwrites the one of the same identifier.
    /// Nothing in the profile is checked.
    fn save(&mut self, config: &WifiConfig) -> (saved: Result<(), String>)
        ensures
            save_outcome(
                Self::dependable(),
                old(self).profiles(),
                final(self).profiles(),
                config@,
                saved,
            ),
    ;

    /// The profile called `id`, if the store holds it.
    fn find_by_id(&self, id: &str) -> (found: Result<Option<WifiConfig>, String>)
        ensures
            find_outcome(Self::dependable(), self.profiles(), id@, found),
    ;

    /// All profiles, in no particular order.
    fn find_all(&self) -> (found: Result<Vec<WifiConfig>, String>)
        ensures
            list_outcome(Self::dependable(), self.profiles(), found),
    ;

    /// The active profile, if there is one.
    fn find_active(&self) -> (found: Result<Option<WifiConfig>, String>)
        ensures
            find_active_outcome(Self::dependable(), self.profiles(), found),
    ;

    /// Makes the profile called `id` the only active one.
    fn set_active(&mut self, id: &str) -> (done: Result<(), String>)
        ensures
            set_active_outcome(
                Self::dependable(),
                old(self).profiles(),
                final(self).profiles(),
                id@,
                done,
            ),
    ;

    /// Removes the profile called `id`, if the store holds it.
    fn delete(&mut self, id: &str) -> (done: Result<(), String>)
        ensures
            delete_outcome(
                Self::dependable(),
                old(self).profiles(),
                final(self).profiles(),
                id@,
                done,
            ),
    ;
}

/// What looking up an interface may return: a stored profile for the
/// interface called `interface_name`, or nothing where no profile is for it.
pub open spec fn find_by_interface_outcome(
    dependable: bool,
    profiles: StaticIpProfiles,
    interface_name: Seq<char>,
    found: Result<Option<StaticIpConfig>, String>,
) -> bool {
    match found {
        Ok(Some(config)) => profiles.contains_key(config@.id) && profiles[config@.id] == config@
            && config@.interface_name == interface_name,
        Ok(None) => forall|id: Seq<char>|
            profiles.contains_key(id) ==> (#[trigger] profiles[id]).interface_name
                != interface_name,
        Err(_) => !dependable,
    }
}

/// What enabling (`enabled` true) or disabling (`enabled` false) `id` may
/// do: the flag of that one profile is set, and no other profile changes.
/// Where the store holds no such profile the call fails and changes nothing.
pub open spec fn toggle_outcome(
    dependable: bool,
    before: StaticIpProfiles,
    after: StaticIpProfiles,
    id: Seq<char>,
    enabled: bool,
    done: Result<(), String>,
) -> bool {
    match done {
        Ok(_) => before.contains_key(id) && after == before.insert(
            id,
            before[id].with_enabled(enabled),
        ),
        Err(e) => {
            &&& after == before
            &&& dependable ==> !before.contains_key(id) && e@ == static_ip_not_found()
        },
    }
}

/// A store of static-IP profiles, told apart by their identifiers. Any
/// number of them may be enabled at a time, also for one interface.
pub trait StaticIpConfigRepository {
    /// The profiles that the store holds.
    spec fn profiles(&self) -> StaticIpProfiles;

    /// Whether the store fails only where a contract says so.
    spec fn dependable() -> bool;

    /// Inserts the profile, or overwrites the one of the same identifier.
    /// Nothing in the profile is checked.
    fn save(&mut self, config: &StaticIpConfig) -> (saved: Result<(), String>)
        ensures
            save_outcome(
                Self::dependable(),
                old(self).profiles(),
                final(self).profiles(),
                config@,
                saved,
            ),
    ;

    /// The profile called `id`, if the store holds it.
    fn find_by_id(&self, id: &str) -> (found: Result<Option<StaticIpConfig>, String>)
        ensures
            find_outcome(Self::dependable(), self.profiles(), id@, found),
    ;

    /// A profile for the interface called `interface_name`, if there is one.
    fn find_by_interface(&self, interface_name: &str) -> (found: Result<
        Option<StaticIpConfig>,
        String,
    >)
        ensures
            find_by_interface_outcome(Self::dependable(), self.profiles(), interface_name@, found),
    ;

    /// All profiles, in no particular order.
    fn find_all(&self) -> (found: Result<Vec<StaticIpConfig>, String>)
        ensures
            list_outcome(Self::dependable(), self.profiles(), found),
    ;

    /// Enables the profile called `id`.
    fn enable(&mut self, id: &str) -> (done: Result<(), String>)
        ensures
            toggle_outcome(
                Self::dependable(),
                old(self).profiles(),
                final(self).profiles(),
                id@,
                true,
                done,
            ),
    ;

    /// Disables the profile called `id`.
    fn disable(&mut self, id: &str) -> (done: Result<(), String>)
        ensures
            toggle_outcome(
                Self::dependable(),
                old(self).profiles(),
                final(self).profiles(),
                id@,
                false,
                done,
            ),
    ;

    /// Removes the profile called `id`, if the store holds it.
    fn delete(&mut self, id: &str) -> (done: Result<(), String>)
        ensures
            delete_outcome(
                Self::dependable(),
                old(self).profiles(),
                final(self).profiles(),
                id@,
                done,
            ),
    ;
}

/// What holds of every interface record, whichever way it was discovered:
/// its kind follows from its name, it is up exactly when it has an address,
/// and its current address is the first one of a family.
pub open spec fn consistent_interface(interface: NetworkInterfaceView) -> bool {
    &&& interface.interface_type == classify_interface_name(interface.name)
    &&& interface.is_up <==> interface.ipv4_addresses.len() > 0 || interface.ipv6_addresses.len()
        > 0
    &&& interface.current_ip is Some <==> interface.is_up
    &&& match interface.current_ip {
        Some(ip) => {
            ||| interface.ipv4_addresses.len() > 0 && interface.ipv4_addresses[0] == ip
            ||| interface.ipv6_addresses.len() > 0 && interface.ipv6_addresses[0] == ip
        },
        None => true,
    }
}

/// A listing of interfaces: every record consistent, no name twice.
pub open spec fn valid_listing(list: Seq<NetworkInterfaceView>) -> bool {
    &&& forall|i: int| 0 <= i < list.len() ==> consistent_interface(#[trigger] list[i])
    &&& forall|i: int, j: int|
        0 <= i < j < list.len() ==> (#[trigger] list[i]).name != (#[trigger] list[j]).name
}

/// What looking up `name` in a listing gives: the first record of that name,
/// or nothing where the listing has none.
pub open spec fn named_in(
    listing: Seq<NetworkInterfaceView>,
    name: Seq<char>,
    found: Option<NetworkInterface>,
) -> bool {
    match found {
        Some(interface) => exists|k: int|
            {
                &&& 0 <= k < listing.len()
                &&& #[trigger] listing[k] == interface@
                &&& listing[k].name == name
                &&& forall|m: int| 0 <= m < k ==> (#[trigger] listing[m]).name != name
            },
        None => forall|k: int| 0 <= k < listing.len() ==> (#[trigger] listing[k]).name != name,
    }
}

/// A source of the host's network interfaces.
pub trait NetworkInterfaceRepository {
    /// The interfaces of the host, one record for each, or the reason why
    /// they could not be listed. Nothing is returned in part.
    fn get_interfaces(&self) -> (found: Result<Vec<NetworkInterface>, String>)
        ensures
            found matches Ok(list) ==> valid_listing(views(list@)),
    ;

    /// The interface called `name`, if the host has one.
    fn get_interface_by_name(&self, name: &str) -> (found: Result<
        Option<NetworkInterface>,
        String,
    >)
        ensures
            found matches Ok(Some(interface)) ==> interface@.name == name@ && consistent_interface(
                interface@,
            ),
    ;
}

} // verus!
