//! What a resolution event tells of a service instance, and the record that
//! a scan keeps of it.

use crate::attributes::{pairs_map, AttributeMap};
use vstd::prelude::*;

verus! {

/// The content of a resolution event, as mathematical values.
pub struct InstanceModel {
    pub fullname: Seq<char>,
    pub hostname: Seq<char>,
    pub addresses: Seq<Seq<char>>,
    pub port: u16,
    pub properties: Seq<(Seq<char>, Seq<char>)>,
}

/// A service record, as mathematical values.
pub struct RecordModel {
    pub hostname: Seq<char>,
    pub fullname: Seq<char>,
    pub addresses: Seq<Seq<char>>,
    pub port: u16,
    pub attributes: Map<Seq<char>, Seq<char>>,
}

/// The record that is kept of a resolved instance: name, host, addresses and
/// port as they were announced, and the advertised properties as a map.
pub open spec fn record_of(instance: InstanceModel) -> RecordModel {
    RecordModel {
        hostname: instance.hostname,
        fullname: instance.fullname,
        addresses: instance.addresses,
        port: instance.port,
        attributes: pairs_map(instance.properties),
    }
}

/// A service instance whose connection data is known: the content of a
/// resolution event, with the addresses in their textual form and the
/// advertised properties in the order of the announcement.
#[derive(Clone, Debug)]
pub struct ResolvedInstance {
    pub fullname: String,
    pub hostname: String,
    pub addresses: Vec<String>,
    pub port: u16,
    pub properties: Vec<(String, String)>,
}

impl View for ResolvedInstance {
    type V = InstanceModel;

    open spec fn view(&self) -> InstanceModel {
        InstanceModel {
            fullname: self.fullname@,
            hostname: self.hostname@,
            addresses: self.addresses.deep_view(),
            port: self.port,
            properties: self.properties.deep_view(),
        }
    }
}

/// The snapshot of one discovered instance.
#[derive(Clone, Debug)]
pub struct ServiceRecord {
    pub hostname: String,
    pub fullname: String,
    pub addresses: Vec<String>,
    pub port: u16,
    pub attributes: AttributeMap,
}

impl View for ServiceRecord {
    type V = RecordModel;

    open spec fn view(&self) -> RecordModel {
        RecordModel {
            hostname: self.hostname@,
            fullname: self.fullname@,
            addresses: self.addresses.deep_view(),
            port: self.port,
            attributes: self.attributes@,
        }
    }
}

impl ServiceRecord {
    /// Builds the record of a resolved instance.
    pub fn from_instance(instance: ResolvedInstance) -> (record: Self)
        ensures
            record@ == record_of(instance@),
    {
        let attributes = AttributeMap::from_pairs(&instance.properties);
        ServiceRecord {
            hostname: instance.hostname,
            fullname: instance.fullname,
            addresses: instance.addresses,
            port: instance.port,
            attributes,
        }
    }
}

} // verus!
