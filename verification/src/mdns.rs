//! What the `mdns_sd` daemon reports, taken over into the values of this
//! library.
//!
//! The daemon's `ServiceInfo` keeps its fields to itself. What its getters
//! hand out is given a name each, and the functions below say of their
//! results only how they relate to those names.

use crate::event::{DiscoveryEvent, EventModel};
use crate::record::{InstanceModel, ResolvedInstance};
use mdns_sd::{ServiceEvent, ServiceInfo};
use vstd::multiset::Multiset;
use vstd::prelude::*;

verus! {

/// `mdns_sd::ServiceInfo`, held as it is: nothing of its inside is known here.
#[verifier::external_type_specification]
#[verifier::external_body]
pub struct ExServiceInfo(mdns_sd::ServiceInfo);

/// `mdns_sd::ServiceEvent`, declared with its five variants as the crate
/// defines them.
#[verifier::external_type_specification]
pub struct ExServiceEvent(mdns_sd::ServiceEvent);

/// The full name that `ServiceInfo::get_fullname` gives.
pub uninterp spec fn announced_fullname(info: ServiceInfo) -> Seq<char>;

/// The host name that `ServiceInfo::get_hostname` gives.
pub uninterp spec fn announced_hostname(info: ServiceInfo) -> Seq<char>;

/// The port that `ServiceInfo::get_port` gives.
pub uninterp spec fn announced_port(info: ServiceInfo) -> u16;

/// The addresses that `ServiceInfo::get_addresses` holds, each in its textual
/// form. The daemon keeps them as a set, so they have no order.
pub uninterp spec fn announced_addresses(info: ServiceInfo) -> Multiset<Seq<char>>;

/// The keys and values of the properties that `ServiceInfo::get_properties`
/// holds, in the order in which it keeps them.
pub uninterp spec fn announced_properties(info: ServiceInfo) -> Seq<(Seq<char>, Seq<char>)>;

/// Calls `ServiceInfo::get_fullname`, which returns the full name that the
/// info holds, and copies it.
#[verifier::external_body]
fn fullname_of(info: &ServiceInfo) -> (fullname: String)
    ensures
        fullname@ == announced_fullname(*info),
{
    info.get_fullname().to_string()
}

/// Calls `ServiceInfo::get_hostname`, which returns the host name that the
/// info holds, and copies it.
#[verifier::external_body]
fn hostname_of(info: &ServiceInfo) -> (hostname: String)
    ensures
        hostname@ == announced_hostname(*info),
{
    info.get_hostname().to_string()
}

/// Calls `ServiceInfo::get_port`, which returns the port that the info holds.
#[verifier::external_body]
fn port_of(info: &ServiceInfo) -> (port: u16)
    ensures
        port == announced_port(*info),
{
    info.get_port()
}

/// Calls `ServiceInfo::get_addresses`, which returns the set of addresses
/// that the info holds, and writes each address out as text. The set is
/// walked in no fixed order: the contract speaks of what comes out, not of
/// where in the list it stands.
#[verifier::external_body]
fn addresses_of(info: &ServiceInfo) -> (addresses: Vec<String>)
    ensures
        addresses.deep_view().to_multiset() == announced_addresses(*info),
{
    info.get_addresses().iter().map(|address| address.to_string()).collect()
}

/// Calls `ServiceInfo::get_properties` and walks the properties in the order
/// in which they are kept, taking of each its `key` and its `val_str`: the
/// value as text, empty where the property has no value or one that is no
/// UTF-8.
#[verifier::external_body]
fn properties_of(info: &ServiceInfo) -> (properties: Vec<(String, String)>)
    ensures
        properties.deep_view() == announced_properties(*info),
{
    info.get_properties()
        .iter()
        .map(|property| (property.key().to_string(), property.val_str().to_string()))
        .collect()
}

/// The instance holds what the info announces: name, host, port and
/// properties as the info gives them, and its addresses in some order.
pub open spec fn announces(info: ServiceInfo, instance: InstanceModel) -> bool {
    &&& instance.fullname == announced_fullname(info)
    &&& instance.hostname == announced_hostname(info)
    &&& instance.port == announced_port(info)
    &&& instance.addresses.to_multiset() == announced_addresses(info)
    &&& instance.properties == announced_properties(info)
}

/// The event holds what the daemon's event reports: the same kind, the same
/// names, and for a resolution what its info announces.
pub open spec fn reports(event: ServiceEvent, model: EventModel) -> bool {
    match event {
        ServiceEvent::SearchStarted(service_type) => model == (EventModel::SearchStarted {
            service_type: service_type@,
        }),
        ServiceEvent::ServiceFound(service_type, fullname) => model == (EventModel::ServiceFound {
            service_type: service_type@,
            fullname: fullname@,
        }),
        ServiceEvent::ServiceResolved(info) => {
            &&& model is ServiceResolved
            &&& announces(info, model->instance)
        },
        ServiceEvent::ServiceRemoved(service_type, fullname) => model == (
        EventModel::ServiceRemoved { service_type: service_type@, fullname: fullname@ }),
        ServiceEvent::SearchStopped(service_type) => model == (EventModel::SearchStopped {
            service_type: service_type@,
        }),
    }
}

/// Reads out of the daemon's info what a record is made of.
pub fn instance_of(info: &ServiceInfo) -> (instance: ResolvedInstance)
    ensures
        announces(*info, instance@),
{
    ResolvedInstance {
        fullname: fullname_of(info),
        hostname: hostname_of(info),
        addresses: addresses_of(info),
        port: port_of(info),
        properties: properties_of(info),
    }
}

/// Takes an event of the daemon over, kind by kind.
pub fn event_of(event: ServiceEvent) -> (taken: DiscoveryEvent)
    ensures
        reports(event, taken@),
{
    match event {
        ServiceEvent::SearchStarted(service_type) => DiscoveryEvent::SearchStarted { service_type },
        ServiceEvent::ServiceFound(service_type, fullname) => DiscoveryEvent::ServiceFound {
            service_type,
            fullname,
        },
        ServiceEvent::ServiceResolved(info) => DiscoveryEvent::ServiceResolved {
            instance: instance_of(&info),
        },
        ServiceEvent::ServiceRemoved(service_type, fullname) => DiscoveryEvent::ServiceRemoved {
            service_type,
            fullname,
        },
        ServiceEvent::SearchStopped(service_type) => DiscoveryEvent::SearchStopped { service_type },
    }
}

} // verus!
