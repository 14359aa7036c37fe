//! The list of instances that a scan has resolved so far, each one once.

use crate::event::{DiscoveryEvent, EventModel};
use crate::record::{record_of, InstanceModel, RecordModel, ResolvedInstance, ServiceRecord};
use vstd::hash_set::StringHashSet;
use vstd::prelude::*;

verus! {

/// The full names of the records, in the order of the records.
pub open spec fn fullnames(records: Seq<RecordModel>) -> Seq<Seq<char>> {
    records.map_values(|record: RecordModel| record.fullname)
}

/// The list after a resolved instance came in: an instance whose full name
/// the list holds already is dropped, any other is recorded at the end.
pub open spec fn enroll(records: Seq<RecordModel>, instance: InstanceModel) -> Seq<RecordModel> {
    if fullnames(records).contains(instance.fullname) {
        records
    } else {
        records.push(record_of(instance))
    }
}

/// The list after an event came in: only a resolution can change it.
pub open spec fn absorb(records: Seq<RecordModel>, event: EventModel) -> Seq<RecordModel> {
    match event {
        EventModel::ServiceResolved { instance } => enroll(records, instance),
        _ => records,
    }
}

/// The list that a sequence of events leaves behind.
pub open spec fn collect(events: Seq<EventModel>) -> Seq<RecordModel>
    decreases events.len(),
{
    if events.len() == 0 {
        Seq::empty()
    } else {
        absorb(collect(events.drop_last()), events.last())
    }
}

/// The records as mathematical values.
pub open spec fn record_views(records: Seq<ServiceRecord>) -> Seq<RecordModel> {
    records.map_values(|record: ServiceRecord| record@)
}

/// The records of the instances resolved so far, in the order in which they
/// were first resolved, with the set of their full names beside them.
pub struct Roster {
    seen: StringHashSet,
    records: Vec<ServiceRecord>,
}

impl View for Roster {
    type V = Seq<RecordModel>;

    closed spec fn view(&self) -> Seq<RecordModel> {
        record_views(self.records@)
    }
}

impl Roster {
    #[verifier::type_invariant]
    spec fn well_formed(self) -> bool {
        &&& forall|name: Seq<char>| self.seen@.contains(name) <==> fullnames(self@).contains(name)
        &&& fullnames(self@).no_duplicates()
    }

    /// A roster without records.
    pub fn new() -> (roster: Self)
        ensures
            roster@ == Seq::<RecordModel>::empty(),
    {
        Roster { seen: StringHashSet::new(), records: Vec::new() }
    }

    /// Whether an instance of this full name is recorded.
    pub fn contains(&self, fullname: &str) -> (known: bool)
        ensures
            known == fullnames(self@).contains(fullname@),
    {
        proof {
            use_type_invariant(self);
        }
        self.seen.contains(fullname)
    }

    /// The number of records.
    pub fn len(&self) -> (n: usize)
        ensures
            n == self@.len(),
    {
        self.records.len()
    }

    /// Takes a resolved instance in: the first resolution of a full name is
    /// recorded at the end of the list, a later one is dropped.
    pub fn enroll(&mut self, instance: ResolvedInstance) -> (added: bool)
        ensures
            final(self)@ == enroll(old(self)@, instance@),
            added == !fullnames(old(self)@).contains(instance@.fullname),
            fullnames(final(self)@).contains(instance@.fullname),
    {
        if self.contains(instance.fullname.as_str()) {
            return false;
        }
        let mut taken = Roster::new();
        core::mem::swap(self, &mut taken);
        proof {
            use_type_invariant(&taken);
        }
        let Roster { mut seen, mut records } = taken;
        let ghost before = record_views(records@);
        let name = instance.fullname.clone();
        let record = ServiceRecord::from_instance(instance);
        records.push(record);
        seen.insert(name);
        proof {
            let after = record_views(records@);
            assert(fullnames(after) =~= fullnames(before).push(instance@.fullname));
            assert forall|wanted: Seq<char>| seen@.contains(wanted) <==> fullnames(after).contains(
                wanted,
            ) by {
                if fullnames(before).contains(wanted) {
                    let i = choose|i: int|
                        0 <= i < fullnames(before).len() && fullnames(before)[i] == wanted;
                    assert(fullnames(after)[i] == wanted);
                }
                if wanted == instance@.fullname {
                    assert(fullnames(after)[before.len() as int] == wanted);
                }
            }
        }
        *self = Roster { seen, records };
        true
    }

    /// Takes an event in: a resolution is enrolled, any other event is passed over.
    pub fn absorb(&mut self, event: DiscoveryEvent) -> (added: bool)
        ensures
            final(self)@ == absorb(old(self)@, event@),
            added == (final(self)@.len() == old(self)@.len() + 1),
    {
        match event {
            DiscoveryEvent::ServiceResolved { instance } => self.enroll(instance),
            _ => false,
        }
    }

    /// Hands the records out.
    pub fn into_records(self) -> (records: Vec<ServiceRecord>)
        ensures
            record_views(records@) == self@,
    {
        self.records
    }
}

} // verus!
