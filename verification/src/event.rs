//! The events that a discovery daemon reports while it browses.

use crate::record::{InstanceModel, ResolvedInstance};
use vstd::prelude::*;

verus! {

/// A discovery event, as mathematical values.
pub enum EventModel {
    SearchStarted { service_type: Seq<char> },
    ServiceFound { service_type: Seq<char>, fullname: Seq<char> },
    ServiceResolved { instance: InstanceModel },
    ServiceRemoved { service_type: Seq<char>, fullname: Seq<char> },
    SearchStopped { service_type: Seq<char> },
}

/// One notification of the daemon about the service type that is browsed.
#[derive(Clone, Debug)]
pub enum DiscoveryEvent {
    /// The search for a service type has begun.
    SearchStarted { service_type: String },
    /// An instance was seen; its connection data is not known yet.
    ServiceFound { service_type: String, fullname: String },
    /// The connection data of an instance is known.
    ServiceResolved { instance: ResolvedInstance },
    /// An instance is gone.
    ServiceRemoved { service_type: String, fullname: String },
    /// The search for a service type has ended.
    SearchStopped { service_type: String },
}

impl View for DiscoveryEvent {
    type V = EventModel;

    open spec fn view(&self) -> EventModel {
        match self {
            DiscoveryEvent::SearchStarted { service_type } => EventModel::SearchStarted {
                service_type: service_type@,
            },
            DiscoveryEvent::ServiceFound { service_type, fullname } => EventModel::ServiceFound {
                service_type: service_type@,
                fullname: fullname@,
            },
            DiscoveryEvent::ServiceResolved { instance } => EventModel::ServiceResolved {
                instance: instance@,
            },
            DiscoveryEvent::ServiceRemoved { service_type, fullname } => EventModel::ServiceRemoved {
                service_type: service_type@,
                fullname: fullname@,
            },
            DiscoveryEvent::SearchStopped { service_type } => EventModel::SearchStopped {
                service_type: service_type@,
            },
        }
    }
}

} // verus!
