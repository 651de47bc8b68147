//! What the host reports of its network interfaces, and how the reports of
//! one interface are put together.

use crate::domain::network_entities::{classify_interface_name, NetworkInterfaceView};
use crate::domain::network_repositories::{consistent_interface, valid_listing};
use crate::keyed::views;
use network_interface::NetworkInterfaceConfig;
use vstd::prelude::*;

verus! {

/// One address bound to an interface, written out, with its family.
#[derive(Debug)]
pub enum HostAddress {
    V4(String),
    V6(String),
}

/// What a `HostAddress` holds.
pub enum HostAddressView {
    V4(Seq<char>),
    V6(Seq<char>),
}

impl HostAddressView {
    /// The written address, whatever its family.
    pub open spec fn text(self) -> Seq<char> {
        match self {
            HostAddressView::V4(t) => t,
            HostAddressView::V6(t) => t,
        }
    }
}

impl View for HostAddress {
    type V = HostAddressView;

    open spec fn view(&self) -> HostAddressView {
        match self {
            HostAddress::V4(t) => HostAddressView::V4(t@),
            HostAddress::V6(t) => HostAddressView::V6(t@),
        }
    }
}

impl Clone for HostAddress {
    fn clone(&self) -> (copy: Self)
        ensures
            copy == *self,
    {
        match self {
            HostAddress::V4(t) => HostAddress::V4(t.clone()),
            HostAddress::V6(t) => HostAddress::V6(t.clone()),
        }
    }
}

/// One entry of the host's report: an interface name and the addresses that
/// this entry carries for it. A name may come in several entries.
#[derive(Debug)]
pub struct HostInterface {
    pub name: String,
    pub addresses: Vec<HostAddress>,
}

/// What a `HostInterface` holds.
pub struct HostInterfaceView {
    pub name: Seq<char>,
    pub addresses: Seq<HostAddressView>,
}

impl View for HostInterface {
    type V = HostInterfaceView;

    open spec fn view(&self) -> HostInterfaceView {
        HostInterfaceView { name: self.name@, addresses: views(self.addresses@) }
    }
}

/// The IPv4 addresses of a list, in the order of the list.
pub open spec fn ipv4_texts(addresses: Seq<HostAddressView>) -> Seq<Seq<char>> {
    addresses.filter(|a: HostAddressView| a is V4).map_values(|a: HostAddressView| a.text())
}

/// The IPv6 addresses of a list, in the order of the list.
pub open spec fn ipv6_texts(addresses: Seq<HostAddressView>) -> Seq<Seq<char>> {
    addresses.filter(|a: HostAddressView| a is V6).map_values(|a: HostAddressView| a.text())
}

/// The placeholder for a hardware address that discovery does not learn.
pub open spec fn mac_unavailable() -> Seq<char> {
    "N/A"@
}

/// The interface record for a name and all the addresses found for it, in
/// the order of discovery. An interface counts as up exactly when it has an
/// address of either family: this stands in for the link state, which is not
/// read.
pub open spec fn describe_interface(
    name: Seq<char>,
    addresses: Seq<HostAddressView>,
) -> NetworkInterfaceView {
    NetworkInterfaceView {
        name,
        interface_type: classify_interface_name(name),
        mac_address: mac_unavailable(),
        is_up: ipv4_texts(addresses).len() > 0 || ipv6_texts(addresses).len() > 0,
        ipv4_addresses: ipv4_texts(addresses),
        ipv6_addresses: ipv6_texts(addresses),
        current_ip: if addresses.len() > 0 {
            Some(addresses[0].text())
        } else {
            None
        },
    }
}

/// The names of a report, each once, in the order in which they first occur.
pub open spec fn names_in_order(report: Seq<HostInterfaceView>) -> Seq<Seq<char>>
    decreases report.len(),
{
    if report.len() == 0 {
        Seq::empty()
    } else {
        let earlier = names_in_order(report.drop_last());
        if earlier.contains(report.last().name) {
            earlier
        } else {
            earlier.push(report.last().name)
        }
    }
}

/// All addresses that a report carries for `name`, in the order of the
/// report.
pub open spec fn addresses_of(report: Seq<HostInterfaceView>, name: Seq<char>) -> Seq<
    HostAddressView,
>
    decreases report.len(),
{
    if report.len() == 0 {
        Seq::empty()
    } else {
        let earlier = addresses_of(report.drop_last(), name);
        if report.last().name == name {
            earlier + report.last().addresses
        } else {
            earlier
        }
    }
}

/// The interfaces of a report: one record for each name, in the order in
/// which the names first occur, each with all addresses reported for it.
pub open spec fn merged_interfaces(report: Seq<HostInterfaceView>) -> Seq<NetworkInterfaceView> {
    names_in_order(report).map_values(
        |name: Seq<char>| describe_interface(name, addresses_of(report, name)),
    )
}

/// The error text for a failed enumeration, with the host's own words.
pub open spec fn discovery_failure(cause: Seq<char>) -> Seq<char> {
    "Failed to get network interfaces: "@ + cause
}

/// Asks the operating system for its interfaces through
/// `network_interface::NetworkInterface::show` and copies each entry's name
/// and addresses, the addresses written out by family; an error is handed on
/// as its `Display` text. Nothing is claimed of what the host reports.
#[verifier::external_body]
pub(crate) fn query_host() -> (report: Result<Vec<HostInterface>, String>) {
    match network_interface::NetworkInterface::show() {
        Ok(found) => Ok(found.into_iter().map(|entry| HostInterface {
            name: entry.name,
            addresses: entry.addr.into_iter().map(|a| match a {
                network_interface::Addr::V4(v4) => HostAddress::V4(v4.ip.to_string()),
                network_interface::Addr::V6(v6) => HostAddress::V6(v6.ip.to_string()),
            }).collect(),
        }).collect()),
        Err(cause) => Err(cause.to_string()),
    }
}

/// Filtering one more address keeps or appends it by its family.
pub proof fn lemma_family_texts_push(addresses: Seq<HostAddressView>, next: HostAddressView)
    ensures
        ipv4_texts(addresses.push(next)) == if next is V4 {
            ipv4_texts(addresses).push(next.text())
        } else {
            ipv4_texts(addresses)
        },
        ipv6_texts(addresses.push(next)) == if next is V6 {
            ipv6_texts(addresses).push(next.text())
        } else {
            ipv6_texts(addresses)
        },
{
    assert(addresses.push(next).drop_last() =~= addresses);
    reveal_with_fuel(Seq::filter, 2);
}

/// An interface is up exactly when some address was found for it.
pub proof fn lemma_up_iff_addressed(name: Seq<char>, addresses: Seq<HostAddressView>)
    ensures
        describe_interface(name, addresses).is_up <==> addresses.len() > 0,
        ipv4_texts(addresses).len() + ipv6_texts(addresses).len() == addresses.len(),
    decreases addresses.len(),
{
    if addresses.len() == 0 {
        reveal_with_fuel(Seq::filter, 1);
    } else {
        let shorter = addresses.drop_last();
        lemma_up_iff_addressed(name, shorter);
        lemma_family_texts_push(shorter, addresses.last());
        assert(shorter.push(addresses.last()) =~= addresses);
    }
}

/// The first address found is the first address of its family.
pub proof fn lemma_first_of_family(addresses: Seq<HostAddressView>)
    requires
        addresses.len() > 0,
    ensures
        addresses[0] is V4 ==> ipv4_texts(addresses).len() > 0 && ipv4_texts(addresses)[0]
            == addresses[0].text(),
        addresses[0] is V6 ==> ipv6_texts(addresses).len() > 0 && ipv6_texts(addresses)[0]
            == addresses[0].text(),
    decreases addresses.len(),
{
    let shorter = addresses.drop_last();
    lemma_family_texts_push(shorter, addresses.last());
    assert(shorter.push(addresses.last()) =~= addresses);
    if shorter.len() == 0 {
        reveal_with_fuel(Seq::filter, 1);
    } else {
        lemma_first_of_family(shorter);
    }
}

/// Every record that `describe_interface` makes is consistent.
pub proof fn lemma_described_is_consistent(name: Seq<char>, addresses: Seq<HostAddressView>)
    ensures
        consistent_interface(describe_interface(name, addresses)),
{
    lemma_up_iff_addressed(name, addresses);
    if addresses.len() > 0 {
        lemma_first_of_family(addresses);
    }
}

/// One more entry of a report adds its name, unless an earlier entry had it,
/// and adds its addresses to those of its name.
pub proof fn lemma_report_step(report: Seq<HostInterfaceView>, i: int)
    requires
        0 <= i < report.len(),
    ensures
        names_in_order(report.take(i + 1)) == if names_in_order(report.take(i)).contains(
            report[i].name,
        ) {
            names_in_order(report.take(i))
        } else {
            names_in_order(report.take(i)).push(report[i].name)
        },
        forall|name: Seq<char>| #[trigger]
            addresses_of(report.take(i + 1), name) == if report[i].name == name {
                addresses_of(report.take(i), name) + report[i].addresses
            } else {
                addresses_of(report.take(i), name)
            },
{
    assert(report.take(i + 1).drop_last() =~= report.take(i));
}

/// No name occurs twice among the names of a report.
pub proof fn lemma_names_distinct(report: Seq<HostInterfaceView>)
    ensures
        names_in_order(report).no_duplicates(),
    decreases report.len(),
{
    if report.len() > 0 {
        lemma_names_distinct(report.drop_last());
    }
}

/// A report carries no address for a name that is not among its names.
pub proof fn lemma_unnamed_has_no_address(report: Seq<HostInterfaceView>, name: Seq<char>)
    requires
        !names_in_order(report).contains(name),
    ensures
        addresses_of(report, name) == Seq::<HostAddressView>::empty(),
    decreases report.len(),
{
    if report.len() > 0 {
        let earlier = names_in_order(report.drop_last());
        if earlier.contains(report.last().name) {
            lemma_unnamed_has_no_address(report.drop_last(), name);
        } else {
            assert(earlier.push(report.last().name).last() == report.last().name);
            assert forall|k: int| 0 <= k < earlier.len() implies earlier[k] != name by {
                assert(earlier.push(report.last().name)[k] == earlier[k]);
            }
            lemma_unnamed_has_no_address(report.drop_last(), name);
        }
    }
}

/// What is merged from any report is a valid listing.
pub proof fn lemma_merged_is_valid(report: Seq<HostInterfaceView>)
    ensures
        valid_listing(merged_interfaces(report)),
{
    lemma_names_distinct(report);
    let merged = merged_interfaces(report);
    assert forall|i: int| 0 <= i < merged.len() implies consistent_interface(
        #[trigger] merged[i],
    ) by {
        lemma_described_is_consistent(
            names_in_order(report)[i],
            addresses_of(report, names_in_order(report)[i]),
        );
    }
}

} // verus!
