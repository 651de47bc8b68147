//! What holds of the profile operations taken together, whatever store
//! stands behind them.

use crate::domain::network_entities::{WifiConfig, WifiSecurityType};
use crate::domain::network_repositories::{
    all_inactive, at_most_one_active, find_active_outcome, set_active_outcome, toggle_outcome,
    wifi_not_found, StaticIpProfiles, WifiProfiles,
};
use crate::domain::network_services::create_wifi_outcome;
use crate::domain::store::{delete_outcome, list_outcome};
use crate::keyed::{index_of, lemma_record_at, views};
use vstd::prelude::*;

verus! {

/// After an activation that succeeded, whatever was done before it, a
/// listing shows exactly one active profile, and it is the one that was
/// activated.
pub proof fn lemma_listing_after_activation(
    dependable: bool,
    before: WifiProfiles,
    after: WifiProfiles,
    id: Seq<char>,
    done: Result<(), String>,
    listed: Result<Vec<WifiConfig>, String>,
)
    requires
        set_active_outcome(dependable, before, after, id, done),
        done is Ok,
        list_outcome(dependable, after, listed),
        listed is Ok,
    ensures
        exists|i: int|
            {
                &&& 0 <= i < listed->Ok_0@.len()
                &&& (#[trigger] listed->Ok_0@[i])@.is_active
                &&& listed->Ok_0@[i]@.id == id
                &&& forall|j: int|
                    0 <= j < listed->Ok_0@.len() && (#[trigger] listed->Ok_0@[j])@.is_active ==> j
                        == i
            },
{
    let shown = views(listed->Ok_0@);
    assert(after.contains_key(id));
    let i = index_of(shown, id);
    lemma_record_at(shown, i);
    assert forall|j: int| 0 <= j < shown.len() && (#[trigger] listed->Ok_0@[j])@.is_active implies j
        == i by {
        lemma_record_at(shown, j);
    }
}

/// After an activation, failed or not, at most one profile is active.
/// A store that is not dependable may fail before it has touched anything,
/// and then keeps what held before.
pub proof fn lemma_activation_leaves_at_most_one_active(
    dependable: bool,
    before: WifiProfiles,
    after: WifiProfiles,
    id: Seq<char>,
    done: Result<(), String>,
)
    requires
        set_active_outcome(dependable, before, after, id, done),
        dependable || at_most_one_active(before),
    ensures
        at_most_one_active(after),
        done is Ok ==> after.contains_key(id) && after[id].is_active,
{
}

/// Creating a profile activates nothing: where at most one profile was
/// active, at most one still is.
pub proof fn lemma_creation_keeps_at_most_one_active(
    dependable: bool,
    before: WifiProfiles,
    after: WifiProfiles,
    ssid: Seq<char>,
    password: Seq<char>,
    security_type: WifiSecurityType,
    created: Result<WifiConfig, String>,
)
    requires
        create_wifi_outcome(dependable, before, after, ssid, password, security_type, created),
        at_most_one_active(before),
    ensures
        at_most_one_active(after),
{
}

/// Deleting a profile activates nothing: where at most one profile was
/// active, at most one still is.
pub proof fn lemma_deletion_keeps_at_most_one_active(
    dependable: bool,
    before: WifiProfiles,
    after: WifiProfiles,
    id: Seq<char>,
    done: Result<(), String>,
)
    requires
        delete_outcome(dependable, before, after, id, done),
        at_most_one_active(before),
    ensures
        at_most_one_active(after),
{
}

/// One call on the WiFi profiles of a service.
pub enum WifiCall {
    Create { ssid: Seq<char>, password: Seq<char>, security_type: WifiSecurityType },
    Activate { id: Seq<char> },
    Delete { id: Seq<char> },
}

/// Whether `call`, with some result, can take the profiles from `before` to
/// `after`.
pub open spec fn call_allows(
    dependable: bool,
    before: WifiProfiles,
    after: WifiProfiles,
    call: WifiCall,
) -> bool {
    match call {
        WifiCall::Create { ssid, password, security_type } => exists|
            created: Result<WifiConfig, String>,
        | #[trigger]
            create_wifi_outcome(dependable, before, after, ssid, password, security_type, created),
        WifiCall::Activate { id } => exists|done: Result<(), String>| #[trigger]
            set_active_outcome(dependable, before, after, id, done),
        WifiCall::Delete { id } => exists|done: Result<(), String>| #[trigger]
            delete_outcome(dependable, before, after, id, done),
    }
}

/// Whether the profiles can pass through `states` under `calls`: the first
/// state before the first call, and one more state after each call.
pub open spec fn is_history(
    dependable: bool,
    states: Seq<WifiProfiles>,
    calls: Seq<WifiCall>,
) -> bool {
    &&& states.len() == calls.len() + 1
    &&& forall|i: int|
        0 <= i < calls.len() ==> call_allows(
            dependable,
            states[i],
            states[i + 1],
            #[trigger] calls[i],
        )
}

/// Whatever profiles are created, activated and deleted, in whatever order:
/// where at most one profile is active at the start, as in a store that
/// holds nothing, at most one is active ever after.
pub proof fn lemma_at_most_one_active_throughout(
    dependable: bool,
    states: Seq<WifiProfiles>,
    calls: Seq<WifiCall>,
)
    requires
        is_history(dependable, states, calls),
        at_most_one_active(states[0]),
    ensures
        forall|i: int| 0 <= i < states.len() ==> at_most_one_active(#[trigger] states[i]),
    decreases calls.len(),
{
    if calls.len() > 0 {
        let n = calls.len() - 1;
        lemma_at_most_one_active_throughout(dependable, states.drop_last(), calls.drop_last());
        assert(at_most_one_active(states.drop_last()[n]));
        match calls[n] {
            WifiCall::Create { ssid, password, security_type } => {
                let created = choose|created: Result<WifiConfig, String>| #[trigger]
                    create_wifi_outcome(
                        dependable,
                        states[n],
                        states[n + 1],
                        ssid,
                        password,
                        security_type,
                        created,
                    );
                lemma_creation_keeps_at_most_one_active(
                    dependable,
                    states[n],
                    states[n + 1],
                    ssid,
                    password,
                    security_type,
                    created,
                );
            },
            WifiCall::Activate { id } => {
                let done = choose|done: Result<(), String>| #[trigger]
                    set_active_outcome(dependable, states[n], states[n + 1], id, done);
                lemma_activation_leaves_at_most_one_active(
                    dependable,
                    states[n],
                    states[n + 1],
                    id,
                    done,
                );
            },
            WifiCall::Delete { id } => {
                let done = choose|done: Result<(), String>| #[trigger]
                    delete_outcome(dependable, states[n], states[n + 1], id, done);
                lemma_deletion_keeps_at_most_one_active(
                    dependable,
                    states[n],
                    states[n + 1],
                    id,
                    done,
                );
            },
        }
        assert forall|i: int| 0 <= i < states.len() implies at_most_one_active(
            #[trigger] states[i],
        ) by {
            if i <= n {
                assert(states[i] == states.drop_last()[i]);
            }
        }
    }
}

/// Activating a profile that the store does not hold fails. With a
/// dependable store the error is the one for a missing WiFi profile, and
/// afterwards no profile is active, whether one was active before or not: a
/// failed activation does not bring back the profile that was active.
pub proof fn lemma_activation_of_missing_profile(
    dependable: bool,
    before: WifiProfiles,
    after: WifiProfiles,
    id: Seq<char>,
    done: Result<(), String>,
    found: Result<Option<WifiConfig>, String>,
)
    requires
        !before.contains_key(id),
        set_active_outcome(dependable, before, after, id, done),
        find_active_outcome(dependable, after, found),
    ensures
        done is Err,
        dependable ==> done->Err_0@ == wifi_not_found(),
        dependable ==> after == all_inactive(before),
        dependable ==> found == Ok::<Option<WifiConfig>, String>(None),
{
}

/// Deleting from a dependable store never fails, neither for a profile that
/// is held, nor for one that was deleted before, nor for one that never was
/// there; and a second deletion changes nothing.
pub proof fn lemma_wifi_deletion_is_idempotent(
    before: WifiProfiles,
    between: WifiProfiles,
    after: WifiProfiles,
    id: Seq<char>,
    first: Result<(), String>,
    second: Result<(), String>,
)
    requires
        delete_outcome(true, before, between, id, first),
        delete_outcome(true, between, after, id, second),
    ensures
        first is Ok,
        second is Ok,
        !between.contains_key(id),
        after == between,
        !before.contains_key(id) ==> between == before,
{
}

/// The same for static-IP profiles.
pub proof fn lemma_static_ip_deletion_is_idempotent(
    before: StaticIpProfiles,
    between: StaticIpProfiles,
    after: StaticIpProfiles,
    id: Seq<char>,
    first: Result<(), String>,
    second: Result<(), String>,
)
    requires
        delete_outcome(true, before, between, id, first),
        delete_outcome(true, between, after, id, second),
    ensures
        first is Ok,
        second is Ok,
        !between.contains_key(id),
        after == between,
        !before.contains_key(id) ==> between == before,
{
}

/// Enabling or disabling one profile changes no other profile, whatever
/// interface the two are for, and changes nothing of the profile itself but
/// its flag.
pub proof fn lemma_toggle_touches_one_flag(
    dependable: bool,
    before: StaticIpProfiles,
    after: StaticIpProfiles,
    id: Seq<char>,
    enabled: bool,
    done: Result<(), String>,
    other: Seq<char>,
)
    requires
        toggle_outcome(dependable, before, after, id, enabled, done),
        other != id,
    ensures
        after.contains_key(other) == before.contains_key(other),
        before.contains_key(other) ==> after[other] == before[other],
        after.dom() == before.dom(),
        done is Ok ==> after[id] == before[id].with_enabled(enabled),
        done is Err ==> after == before,
{
}

} // verus!
