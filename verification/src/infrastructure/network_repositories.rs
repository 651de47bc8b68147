//! Backends of the network configuration service.

use crate::domain::network_entities::{
    classify_interface_name, InterfaceType, NetworkInterface, StaticIpConfig, StaticIpConfigView,
    WifiConfig, WifiConfigView,
};
use crate::domain::network_repositories::{
    activated, all_inactive, named_in, toggle_outcome, valid_listing, NetworkInterfaceRepository,
    StaticIpConfigRepository, StaticIpProfiles, WifiConfigRepository, WifiProfiles,
};
use crate::infrastructure::discovery::{
    addresses_of, describe_interface, discovery_failure, ipv4_texts, ipv6_texts,
    lemma_family_texts_push, lemma_merged_is_valid, lemma_names_distinct, lemma_report_step,
    lemma_unnamed_has_no_address, merged_interfaces, names_in_order, query_host, HostAddress,
    HostAddressView, HostInterface, HostInterfaceView,
};
use crate::infrastructure::memory::{
    delete_record, duplicate_all, find_record, position, save_record, Stored,
};
use crate::keyed::{
    as_map, distinct_keys, index_of, is_first, lemma_absent, lemma_change_each, lemma_empty,
    lemma_record_at, lemma_update, lemma_with_record, lemma_without_key, views, with_record,
    without_key, Keyed,
};
use crate::text::starts_with;
use vstd::prelude::*;

verus! {

impl Stored for WifiConfig {
    fn identifier(&self) -> (id: &String) {
        &self.id
    }

    fn duplicate(&self) -> (copy: Self) {
        self.clone()
    }
}

impl Stored for StaticIpConfig {
    fn identifier(&self) -> (id: &String) {
        &self.id
    }

    fn duplicate(&self) -> (copy: Self) {
        self.clone()
    }
}

/// WiFi profiles kept in memory, in the order in which their identifiers
/// were first saved.
pub struct InMemoryWifiConfigRepository {
    storage: Vec<WifiConfig>,
}

/// Clears the active flag of every profile.
fn deactivate_all(storage: &mut Vec<WifiConfig>)
    requires
        distinct_keys(views(old(storage)@)),
    ensures
        distinct_keys(views(final(storage)@)),
        as_map(views(final(storage)@)) == all_inactive(as_map(views(old(storage)@))),
        final(storage)@.len() == old(storage)@.len(),
        forall|m: int|
            0 <= m < old(storage)@.len() ==> (#[trigger] final(storage)@[m])@ == old(
                storage,
            )@[m]@.with_active(false),
{
    let ghost before = views(storage@);
    let mut k: usize = 0;
    while k < storage.len()
        invariant
            k <= storage.len(),
            storage@.len() == before.len(),
            before == views(old(storage)@),
            forall|m: int|
                0 <= m < k ==> (#[trigger] storage@[m])@ == before[m].with_active(false),
            forall|m: int| k <= m < before.len() ==> (#[trigger] storage@[m])@ == before[m],
        decreases storage.len() - k,
    {
        storage[k].is_active = false;
        k += 1;
    }
    proof {
        lemma_change_each(before, views(storage@), |p: WifiConfigView| p.with_active(false));
    }
}

/// The same profiles in the same order, the one called `id` active and no
/// other.
pub open spec fn only_active(entries: Seq<WifiConfigView>, id: Seq<char>) -> Seq<WifiConfigView> {
    entries.map_values(|p: WifiConfigView| p.with_active(p.id == id))
}

/// Makes the profile called `id` the only active one, and says whether there
/// is such a profile. Where there is none, no profile is left active.
fn activate_only(storage: &mut Vec<WifiConfig>, id: &str) -> (found: bool)
    requires
        distinct_keys(views(old(storage)@)),
    ensures
        distinct_keys(views(final(storage)@)),
        views(final(storage)@) == only_active(views(old(storage)@), id@),
        found == as_map(views(old(storage)@)).contains_key(id@),
        found ==> as_map(views(final(storage)@)) == activated(as_map(views(old(storage)@)), id@),
        !found ==> as_map(views(final(storage)@)) == all_inactive(as_map(views(old(storage)@))),
{
    let ghost before = views(storage@);
    deactivate_all(storage);
    let ghost cleared = views(storage@);
    let wanted = String::from_str(id);
    match position(storage, &wanted) {
        Some(i) => {
            proof {
                lemma_record_at(before, i as int);
                lemma_update(cleared, i as int, cleared[i as int].with_active(true));
                assert(views(
                    storage@.update(i as int, WifiConfig { is_active: true, ..storage@[i as int] }),
                ) =~= cleared.update(i as int, cleared[i as int].with_active(true)));
            }
            storage[i].is_active = true;
            assert(views(storage@) =~= only_active(before, id@));
            true
        },
        None => {
            proof {
                assert forall|m: int| 0 <= m < before.len() implies (#[trigger] before[m]).key()
                    != id@ by {
                    assert(storage@[m]@.id == before[m].id);
                }
                lemma_absent(before, id@);
                assert(views(storage@) =~= only_active(before, id@));
            }
            false
        },
    }
}

impl InMemoryWifiConfigRepository {
    #[verifier::type_invariant]
    spec fn no_identifier_twice(self) -> bool {
        distinct_keys(views(self.storage@))
    }

    /// The profiles in the order in which they are kept: that in which
    /// their identifiers were first saved. No identifier occurs twice.
    pub closed spec fn entries(&self) -> Seq<WifiConfigView> {
        views(self.storage@)
    }

    /// A store that holds nothing.
    pub fn new() -> (repository: Self)
        ensures
            repository.entries() == Seq::<WifiConfigView>::empty(),
            repository.profiles() == WifiProfiles::empty(),
    {
        proof {
            lemma_empty::<WifiConfigView>();
        }
        InMemoryWifiConfigRepository { storage: Vec::new() }
    }

    /// Takes the profiles out, to be changed and put back.
    fn take_storage(&mut self) -> (storage: Vec<WifiConfig>)
        ensures
            storage == old(self).storage,
            distinct_keys(views(storage@)),
    {
        proof {
            use_type_invariant(&*self);
            lemma_empty::<WifiConfigView>();
        }
        let mut storage: Vec<WifiConfig> = Vec::new();
        std::mem::swap(&mut self.storage, &mut storage);
        storage
    }
}

impl Default for InMemoryWifiConfigRepository {
    fn default() -> (repository: Self)
        ensures
            repository.entries() == Seq::<WifiConfigView>::empty(),
            repository.profiles() == WifiProfiles::empty(),
    {
        Self::new()
    }
}

impl WifiConfigRepository for InMemoryWifiConfigRepository {
    open spec fn profiles(&self) -> WifiProfiles {
        as_map(self.entries())
    }

    open spec fn dependable() -> bool {
        true
    }

    fn save(&mut self, config: &WifiConfig) -> (saved: Result<(), String>)
        ensures
            final(self).entries() == with_record(old(self).entries(), config@),
            distinct_keys(final(self).entries()),
    {
        let mut storage = self.take_storage();
        proof {
            lemma_with_record(views(storage@), config@);
        }
        save_record(&mut storage, config);
        self.storage = storage;
        Ok(())
    }

    fn find_by_id(&self, id: &str) -> (found: Result<Option<WifiConfig>, String>) {
        proof {
            use_type_invariant(self);
        }
        Ok(find_record(&self.storage, id))
    }

    fn find_all(&self) -> (found: Result<Vec<WifiConfig>, String>)
        ensures
            found matches Ok(list) && views(list@) == self.entries(),
    {
        proof {
            use_type_invariant(self);
        }
        Ok(duplicate_all(&self.storage))
    }

    fn find_active(&self) -> (found: Result<Option<WifiConfig>, String>)
        ensures
            found matches Ok(first) && is_first(
                self.entries(),
                |p: WifiConfigView| p.is_active,
                first,
            ),
    {
        proof {
            use_type_invariant(self);
        }
        let ghost held = views(self.storage@);
        let mut k: usize = 0;
        while k < self.storage.len()
            invariant
                k <= self.storage.len(),
                held == views(self.storage@),
                distinct_keys(held),
                forall|m: int| 0 <= m < k ==> !(#[trigger] held[m]).is_active,
            decreases self.storage.len() - k,
        {
            if self.storage[k].is_active {
                let first = self.storage[k].clone();
                proof {
                    lemma_record_at(held, k as int);
                    assert(held[k as int] == first@);
                }
                return Ok(Some(first));
            }
            k += 1;
        }
        proof {
            assert forall|id: Seq<char>| self.profiles().contains_key(id) implies !(
            #[trigger] self.profiles()[id]).is_active by {
                lemma_record_at(held, index_of(held, id));
            }
        }
        Ok(None)
    }

    fn set_active(&mut self, id: &str) -> (done: Result<(), String>)
        ensures
            final(self).entries() == only_active(old(self).entries(), id@),
            distinct_keys(final(self).entries()),
    {
        let mut storage = self.take_storage();
        let found = activate_only(&mut storage, id);
        self.storage = storage;
        if found {
            Ok(())
        } else {
            Err(String::from_str("WiFi config not found"))
        }
    }

    fn delete(&mut self, id: &str) -> (done: Result<(), String>)
        ensures
            final(self).entries() == without_key(old(self).entries(), id@),
            distinct_keys(final(self).entries()),
    {
        let mut storage = self.take_storage();
        proof {
            lemma_without_key(views(storage@), id@);
        }
        delete_record(&mut storage, id);
        self.storage = storage;
        Ok(())
    }
}

/// Static-IP profiles kept in memory, in the order in which their
/// identifiers were first saved.
pub struct InMemoryStaticIpConfigRepository {
    storage: Vec<StaticIpConfig>,
}

/// The same profiles in the same order, the enabled flag of the one called
/// `id` set to `enabled`.
pub open spec fn with_flag(
    entries: Seq<StaticIpConfigView>,
    id: Seq<char>,
    enabled: bool,
) -> Seq<StaticIpConfigView> {
    entries.map_values(
        |p: StaticIpConfigView|
            if p.id == id {
                p.with_enabled(enabled)
            } else {
                p
            },
    )
}

/// Sets the enabled flag of the profile called `id`, and says whether there
/// is such a profile.
fn set_enabled(storage: &mut Vec<StaticIpConfig>, id: &str, enabled: bool) -> (found: bool)
    requires
        distinct_keys(views(old(storage)@)),
    ensures
        distinct_keys(views(final(storage)@)),
        views(final(storage)@) == with_flag(views(old(storage)@), id@, enabled),
        found == as_map(views(old(storage)@)).contains_key(id@),
        found ==> as_map(views(final(storage)@)) == as_map(views(old(storage)@)).insert(
            id@,
            as_map(views(old(storage)@))[id@].with_enabled(enabled),
        ),
        !found ==> as_map(views(final(storage)@)) == as_map(views(old(storage)@)),
{
    let ghost before = views(storage@);
    let wanted = String::from_str(id);
    match position(storage, &wanted) {
        Some(i) => {
            proof {
                lemma_record_at(before, i as int);
                lemma_update(before, i as int, before[i as int].with_enabled(enabled));
                assert(views(
                    storage@.update(
                        i as int,
                        StaticIpConfig { is_enabled: enabled, ..storage@[i as int] },
                    ),
                ) =~= before.update(i as int, before[i as int].with_enabled(enabled)));
            }
            storage[i].is_enabled = enabled;
            assert(views(storage@) =~= with_flag(before, id@, enabled));
            true
        },
        None => {
            proof {
                lemma_absent(before, id@);
                assert(views(storage@) =~= with_flag(before, id@, enabled));
            }
            false
        },
    }
}

impl InMemoryStaticIpConfigRepository {
    #[verifier::type_invariant]
    spec fn no_identifier_twice(self) -> bool {
        distinct_keys(views(self.storage@))
    }

    /// The profiles in the order in which they are kept: that in which
    /// their identifiers were first saved. No identifier occurs twice.
    pub closed spec fn entries(&self) -> Seq<StaticIpConfigView> {
        views(self.storage@)
    }

    /// A store that holds nothing.
    pub fn new() -> (repository: Self)
        ensures
            repository.entries() == Seq::<StaticIpConfigView>::empty(),
            repository.profiles() == StaticIpProfiles::empty(),
    {
        proof {
            lemma_empty::<StaticIpConfigView>();
        }
        InMemoryStaticIpConfigRepository { storage: Vec::new() }
    }

    /// Takes the profiles out, to be changed and put back.
    fn take_storage(&mut self) -> (storage: Vec<StaticIpConfig>)
        ensures
            storage == old(self).storage,
            distinct_keys(views(storage@)),
    {
        proof {
            use_type_invariant(&*self);
            lemma_empty::<StaticIpConfigView>();
        }
        let mut storage: Vec<StaticIpConfig> = Vec::new();
        std::mem::swap(&mut self.storage, &mut storage);
        storage
    }

    /// Sets the enabled flag of the profile called `id`.
    fn toggle(&mut self, id: &str, enabled: bool) -> (done: Result<(), String>)
        ensures
            toggle_outcome(true, old(self).profiles(), final(self).profiles(), id@, enabled, done),
            final(self).entries() == with_flag(old(self).entries(), id@, enabled),
            distinct_keys(final(self).entries()),
    {
        let mut storage = self.take_storage();
        let found = set_enabled(&mut storage, id, enabled);
        self.storage = storage;
        if found {
            Ok(())
        } else {
            Err(String::from_str("Static IP config not found"))
        }
    }
}

impl Default for InMemoryStaticIpConfigRepository {
    fn default() -> (repository: Self)
        ensures
            repository.entries() == Seq::<StaticIpConfigView>::empty(),
            repository.profiles() == StaticIpProfiles::empty(),
    {
        Self::new()
    }
}

impl StaticIpConfigRepository for InMemoryStaticIpConfigRepository {
    open spec fn profiles(&self) -> StaticIpProfiles {
        as_map(self.entries())
    }

    open spec fn dependable() -> bool {
        true
    }

    fn save(&mut self, config: &StaticIpConfig) -> (saved: Result<(), String>)
        ensures
            final(self).entries() == with_record(old(self).entries(), config@),
            distinct_keys(final(self).entries()),
    {
        let mut storage = self.take_storage();
        proof {
            lemma_with_record(views(storage@), config@);
        }
        save_record(&mut storage, config);
        self.storage = storage;
        Ok(())
    }

    fn find_by_id(&self, id: &str) -> (found: Result<Option<StaticIpConfig>, String>) {
        proof {
            use_type_invariant(self);
        }
        Ok(find_record(&self.storage, id))
    }

    fn find_by_interface(&self, interface_name: &str) -> (found: Result<
        Option<StaticIpConfig>,
        String,
    >)
        ensures
            found matches Ok(first) && is_first(
                self.entries(),
                |p: StaticIpConfigView| p.interface_name == interface_name@,
                first,
            ),
    {
        proof {
            use_type_invariant(self);
        }
        let ghost held = views(self.storage@);
        let wanted = String::from_str(interface_name);
        let mut k: usize = 0;
        while k < self.storage.len()
            invariant
                k <= self.storage.len(),
                wanted@ == interface_name@,
                held == views(self.storage@),
                distinct_keys(held),
                forall|m: int|
                    0 <= m < k ==> (#[trigger] held[m]).interface_name != interface_name@,
            decreases self.storage.len() - k,
        {
            if self.storage[k].interface_name == wanted {
                let first = self.storage[k].clone();
                proof {
                    lemma_record_at(held, k as int);
                    assert(held[k as int] == first@);
                }
                return Ok(Some(first));
            }
            k += 1;
        }
        proof {
            assert forall|id: Seq<char>| self.profiles().contains_key(id) implies (
            #[trigger] self.profiles()[id]).interface_name != interface_name@ by {
                lemma_record_at(held, index_of(held, id));
            }
        }
        Ok(None)
    }

    fn find_all(&self) -> (found: Result<Vec<StaticIpConfig>, String>)
        ensures
            found matches Ok(list) && views(list@) == self.entries(),
    {
        proof {
            use_type_invariant(self);
        }
        Ok(duplicate_all(&self.storage))
    }

    fn enable(&mut self, id: &str) -> (done: Result<(), String>)
        ensures
            final(self).entries() == with_flag(old(self).entries(), id@, true),
            distinct_keys(final(self).entries()),
    {
        self.toggle(id, true)
    }

    fn disable(&mut self, id: &str) -> (done: Result<(), String>)
        ensures
            final(self).entries() == with_flag(old(self).entries(), id@, false),
            distinct_keys(final(self).entries()),
    {
        self.toggle(id, false)
    }

    fn delete(&mut self, id: &str) -> (done: Result<(), String>)
        ensures
            final(self).entries() == without_key(old(self).entries(), id@),
            distinct_keys(final(self).entries()),
    {
        let mut storage = self.take_storage();
        proof {
            lemma_without_key(views(storage@), id@);
        }
        delete_record(&mut storage, id);
        self.storage = storage;
        Ok(())
    }
}

/// Discovery through the operating system.
pub struct SystemNetworkInterfaceRepository;

/// The names of the entries of a report, as they stand.
pub open spec fn group_names(groups: Seq<HostInterface>) -> Seq<Seq<char>> {
    groups.map_values(|g: HostInterface| g.name@)
}

/// Appends a copy of each address of `more` to `target`.
fn append_addresses(target: &mut Vec<HostAddress>, more: &Vec<HostAddress>)
    ensures
        views(final(target)@) == views(old(target)@) + views(more@),
{
    let mut i: usize = 0;
    while i < more.len()
        invariant
            i <= more.len(),
            views(target@) == views(old(target)@) + views(more@).take(i as int),
        decreases more.len() - i,
    {
        let ghost before = target@;
        target.push(more[i].clone());
        assert(views(target@) =~= views(before).push(more@[i as int]@));
        i += 1;
    }
}

/// The position of the entry named `name`, if there is one.
fn position_of(groups: &Vec<HostInterface>, name: &String) -> (found: Option<usize>)
    ensures
        match found {
            Some(j) => j < groups@.len() && groups@[j as int].name@ == name@,
            None => forall|k: int| 0 <= k < groups@.len() ==> groups@[k].name@ != name@,
        },
{
    let mut k: usize = 0;
    while k < groups.len()
        invariant
            k <= groups.len(),
            forall|m: int| 0 <= m < k ==> groups@[m].name@ != name@,
        decreases groups.len() - k,
    {
        if groups[k].name == *name {
            return Some(k);
        }
        k += 1;
    }
    None
}

impl SystemNetworkInterfaceRepository {
    pub fn new() -> (repository: Self) {
        SystemNetworkInterfaceRepository
    }

    /// The kind of the interface called `name`.
    pub fn determine_interface_type(name: &str) -> (kind: InterfaceType)
        ensures
            kind == classify_interface_name(name@),
    {
        if starts_with(name, "lo") {
            InterfaceType::Loopback
        } else if starts_with(name, "wl") || starts_with(name, "wifi") || starts_with(
            name,
            "wlan",
        ) {
            InterfaceType::Wireless
        } else if starts_with(name, "eth") || starts_with(name, "en") {
            InterfaceType::Ethernet
        } else {
            InterfaceType::Other
        }
    }

    /// The record of one interface from one entry of the host's report.
    pub fn convert_system_interface(sys_interface: &HostInterface) -> (interface: NetworkInterface)
        ensures
            interface@ == describe_interface(sys_interface@.name, sys_interface@.addresses),
    {
        let mut ipv4_addresses: Vec<String> = Vec::new();
        let mut ipv6_addresses: Vec<String> = Vec::new();
        let ghost all = views(sys_interface.addresses@);
        proof {
            reveal_with_fuel(Seq::filter, 1);
        }
        let mut i: usize = 0;
        while i < sys_interface.addresses.len()
            invariant
                i <= sys_interface.addresses.len(),
                all == views(sys_interface.addresses@),
                views(ipv4_addresses@) == ipv4_texts(all.take(i as int)),
                views(ipv6_addresses@) == ipv6_texts(all.take(i as int)),
            decreases sys_interface.addresses.len() - i,
        {
            match &sys_interface.addresses[i] {
                HostAddress::V4(ip) => ipv4_addresses.push(ip.clone()),
                HostAddress::V6(ip) => ipv6_addresses.push(ip.clone()),
            }
            proof {
                lemma_family_texts_push(all.take(i as int), all[i as int]);
                assert(all.take(i + 1) =~= all.take(i as int).push(all[i as int]));
            }
            i += 1;
        }
        assert(all.take(all.len() as int) =~= all);
        let current_ip = if sys_interface.addresses.len() > 0 {
            match &sys_interface.addresses[0] {
                HostAddress::V4(ip) => Some(ip.clone()),
                HostAddress::V6(ip) => Some(ip.clone()),
            }
        } else {
            None
        };
        NetworkInterface {
            name: sys_interface.name.clone(),
            interface_type: Self::determine_interface_type(sys_interface.name.as_str()),
            mac_address: String::from_str("N/A"),
            is_up: ipv4_addresses.len() > 0 || ipv6_addresses.len() > 0,
            ipv4_addresses,
            ipv6_addresses,
            current_ip,
        }
    }

    /// The interfaces of a report: the entries of one name are put
    /// together, and each name gives one record.
    pub fn merge_report(report: &Vec<HostInterface>) -> (merged: Vec<NetworkInterface>)
        ensures
            views(merged@) == merged_interfaces(views(report@)),
            valid_listing(views(merged@)),
    {
        let ghost all = views(report@);
        let mut groups: Vec<HostInterface> = Vec::new();
        let mut i: usize = 0;
        while i < report.len()
            invariant
                i <= report.len(),
                all == views(report@),
                group_names(groups@) == names_in_order(all.take(i as int)),
                forall|k: int|
                    0 <= k < groups@.len() ==> views((#[trigger] groups@[k]).addresses@)
                        == addresses_of(all.take(i as int), groups@[k].name@),
            decreases report.len() - i,
        {
            let entry = &report[i];
            let ghost before = groups@;
            proof {
                lemma_report_step(all, i as int);
                lemma_names_distinct(all.take(i as int));
            }
            match position_of(&groups, &entry.name) {
                Some(j) => {
                    append_addresses(&mut groups[j].addresses, &entry.addresses);
                    proof {
                        assert(group_names(before)[j as int] == entry.name@);
                        assert forall|k: int| 0 <= k < groups@.len() implies views(
                            (#[trigger] groups@[k]).addresses@,
                        ) == addresses_of(all.take(i + 1), groups@[k].name@) by {
                            if k != j {
                                assert(group_names(before)[k] == before[k].name@);
                            }
                        }
                    }
                },
                None => {
                    let mut addresses: Vec<HostAddress> = Vec::new();
                    append_addresses(&mut addresses, &entry.addresses);
                    groups.push(HostInterface { name: entry.name.clone(), addresses });
                    proof {
                        assert(forall|k: int|
                            0 <= k < before.len() ==> group_names(before)[k] != entry.name@);
                        lemma_unnamed_has_no_address(all.take(i as int), entry.name@);
                    }
                },
            }
            i += 1;
        }
        assert(all.take(all.len() as int) =~= all);
        let mut merged: Vec<NetworkInterface> = Vec::new();
        let mut k: usize = 0;
        while k < groups.len()
            invariant
                k <= groups.len(),
                merged@.len() == k,
                group_names(groups@) == names_in_order(all),
                forall|m: int|
                    0 <= m < groups@.len() ==> views((#[trigger] groups@[m]).addresses@)
                        == addresses_of(all, groups@[m].name@),
                forall|m: int|
                    0 <= m < k ==> (#[trigger] merged@[m])@ == describe_interface(
                        groups@[m].name@,
                        addresses_of(all, groups@[m].name@),
                    ),
            decreases groups.len() - k,
        {
            merged.push(Self::convert_system_interface(&groups[k]));
            k += 1;
        }
        proof {
            assert(views(merged@) =~= merged_interfaces(all));
            lemma_merged_is_valid(all);
        }
        merged
    }

    /// What discovery returns for a given answer of the host: the merged
    /// report, or the failure with the host's own words.
    pub fn interfaces_from_report(outcome: Result<Vec<HostInterface>, String>) -> (found: Result<
        Vec<NetworkInterface>,
        String,
    >)
        ensures
            match outcome {
                Ok(report) => found matches Ok(list) && views(list@)
                    == merged_interfaces(views(report@)),
                Err(cause) => found matches Err(e) && e@ == discovery_failure(cause@),
            },
            found matches Ok(list) ==> valid_listing(views(list@)),
    {
        match outcome {
            Ok(report) => Ok(Self::merge_report(&report)),
            Err(cause) => Err(
                String::from_str("Failed to get network interfaces: ").concat(cause.as_str()),
            ),
        }
    }

    /// The first interface of a listing that is called `name`.
    pub fn find_by_name(list: &Vec<NetworkInterface>, name: &str) -> (found: Option<
        NetworkInterface,
    >)
        ensures
            named_in(views(list@), name@, found),
    {
        let wanted = String::from_str(name);
        let mut k: usize = 0;
        while k < list.len()
            invariant
                k <= list.len(),
                wanted@ == name@,
                forall|m: int| 0 <= m < k ==> (#[trigger] views(list@)[m]).name != name@,
            decreases list.len() - k,
        {
            if list[k].name == wanted {
                let found = list[k].clone();
                assert(views(list@)[k as int] == found@);
                return Some(found);
            }
            k += 1;
        }
        None
    }
}

impl Default for SystemNetworkInterfaceRepository {
    fn default() -> (repository: Self) {
        Self::new()
    }
}

impl NetworkInterfaceRepository for SystemNetworkInterfaceRepository {
    fn get_interfaces(&self) -> (found: Result<Vec<NetworkInterface>, String>)
        ensures
            found matches Ok(list) ==> exists|report: Seq<HostInterfaceView>|
                views(list@) == #[trigger] merged_interfaces(report),
            found matches Err(e) ==> exists|cause: Seq<char>| e@ == #[trigger] discovery_failure(
                cause,
            ),
    {
        Self::interfaces_from_report(query_host())
    }

    fn get_interface_by_name(&self, name: &str) -> (found: Result<Option<NetworkInterface>, String>)
        ensures
            found matches Ok(looked_up) ==> exists|report: Seq<HostInterfaceView>|
                named_in(#[trigger] merged_interfaces(report), name@, looked_up),
            found matches Err(e) ==> exists|cause: Seq<char>| e@ == #[trigger] discovery_failure(
                cause,
            ),
    {
        match self.get_interfaces() {
            Ok(list) => {
                Ok(Self::find_by_name(&list, name))
            },
            Err(e) => Err(e),
        }
    }
}

/// Discovery for a machine that gives no access to its interfaces: always
/// the same three, a loopback, a wired and a wireless one.
pub struct MockNetworkInterfaceRepository;

/// An entry of a report with one IPv4 address.
pub open spec fn mock_entry(name: Seq<char>, address: Seq<char>) -> HostInterfaceView {
    HostInterfaceView { name, addresses: seq![HostAddressView::V4(address)] }
}

/// The report that the mock discovery works from.
pub open spec fn mock_report() -> Seq<HostInterfaceView> {
    seq![
        mock_entry("lo"@, "127.0.0.1"@),
        mock_entry("eth0"@, "192.168.1.100"@),
        mock_entry("wlan0"@, "192.168.1.101"@),
    ]
}

impl MockNetworkInterfaceRepository {
    pub fn new() -> (repository: Self) {
        MockNetworkInterfaceRepository
    }

    /// One entry of the report, with one IPv4 address.
    fn entry(name: &str, address: &str) -> (entry: HostInterface)
        ensures
            entry@ == mock_entry(name@, address@),
    {
        let mut addresses: Vec<HostAddress> = Vec::new();
        addresses.push(HostAddress::V4(String::from_str(address)));
        assert(views(addresses@) =~= seq![HostAddressView::V4(address@)]);
        HostInterface { name: String::from_str(name), addresses }
    }

    /// The three interfaces.
    fn interfaces() -> (list: Vec<NetworkInterface>)
        ensures
            views(list@) == merged_interfaces(mock_report()),
            valid_listing(views(list@)),
    {
        let mut report: Vec<HostInterface> = Vec::new();
        report.push(Self::entry("lo", "127.0.0.1"));
        report.push(Self::entry("eth0", "192.168.1.100"));
        report.push(Self::entry("wlan0", "192.168.1.101"));
        assert(views(report@) =~= mock_report());
        SystemNetworkInterfaceRepository::merge_report(&report)
    }
}

impl Default for MockNetworkInterfaceRepository {
    fn default() -> (repository: Self) {
        Self::new()
    }
}

impl NetworkInterfaceRepository for MockNetworkInterfaceRepository {
    fn get_interfaces(&self) -> (found: Result<Vec<NetworkInterface>, String>)
        ensures
            found matches Ok(list) && views(list@) == merged_interfaces(mock_report()),
    {
        Ok(Self::interfaces())
    }

    fn get_interface_by_name(&self, name: &str) -> (found: Result<Option<NetworkInterface>, String>)
        ensures
            found matches Ok(looked_up) && named_in(
                merged_interfaces(mock_report()),
                name@,
                looked_up,
            ),
    {
        let list = Self::interfaces();
        Ok(SystemNetworkInterfaceRepository::find_by_name(&list, name))
    }
}

} // verus!
