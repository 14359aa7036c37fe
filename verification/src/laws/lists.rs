//! What holds of the list that a sequence of events leaves behind.

use crate::event::EventModel;
use crate::mdns::announces;
use crate::record::{record_of, InstanceModel, RecordModel};
use crate::roster::{collect, enroll, fullnames};
use vstd::prelude::*;

verus! {

/// The event is a resolution of the instance of this full name.
pub open spec fn resolves(event: EventModel, fullname: Seq<char>) -> bool {
    event matches EventModel::ServiceResolved { instance } && instance.fullname == fullname
}

/// The event at `i` is the first among `events` that resolves the full name.
pub open spec fn is_first_resolution(events: Seq<EventModel>, i: int, fullname: Seq<char>) -> bool {
    &&& 0 <= i < events.len()
    &&& resolves(events[i], fullname)
    &&& forall|k: int| 0 <= k < i ==> !resolves(#[trigger] events[k], fullname)
}

/// The record is the one made of the first event among `events` that
/// resolves its full name.
pub open spec fn kept_from_first(events: Seq<EventModel>, record: RecordModel) -> bool {
    exists|i: int|
        #[trigger] is_first_resolution(events, i, record.fullname) && record == record_of(
            events[i]->instance,
        )
}

/// However often an instance is resolved, the list holds its full name at
/// most once, and the record under it is the one of the first resolution.
/// An instance that was resolved at all is in the list.
pub proof fn lemma_first_resolution_is_kept(events: Seq<EventModel>)
    ensures
        fullnames(collect(events)).no_duplicates(),
        forall|j: int|
            0 <= j < collect(events).len() ==> kept_from_first(events, #[trigger] collect(events)[j]),
        forall|i: int|
            0 <= i < events.len() && #[trigger] events[i] is ServiceResolved ==> fullnames(
                collect(events),
            ).contains(events[i]->instance.fullname),
    decreases events.len(),
{
    if events.len() > 0 {
        let front = events.drop_last();
        let last = events.last();
        let before = collect(front);
        let after = collect(events);
        lemma_first_resolution_is_kept(front);
        if last is ServiceResolved && !fullnames(before).contains(last->instance.fullname) {
            assert(fullnames(after) =~= fullnames(before).push(last->instance.fullname));
        }
        assert forall|j: int| 0 <= j < after.len() implies kept_from_first(
            events,
            #[trigger] after[j],
        ) by {
            if j < before.len() {
                // The record was there before the last event, and its first
                // resolution stands where it stood.
                let i = choose|i: int|
                    #[trigger] is_first_resolution(front, i, before[j].fullname) && before[j]
                        == record_of(front[i]->instance);
                assert forall|k: int| 0 <= k < i implies !resolves(
                    #[trigger] events[k],
                    before[j].fullname,
                ) by {
                    assert(events[k] == front[k]);
                }
                assert(is_first_resolution(events, i, after[j].fullname));
            } else {
                // The record is the one of the last event. No earlier event
                // resolves its name: the name would have been recorded.
                assert forall|k: int| 0 <= k < events.len() - 1 implies !resolves(
                    #[trigger] events[k],
                    last->instance.fullname,
                ) by {
                    assert(events[k] == front[k]);
                }
                assert(is_first_resolution(events, events.len() - 1, after[j].fullname));
            }
        }
        assert forall|i: int|
            0 <= i < events.len() && #[trigger] events[i] is ServiceResolved implies fullnames(
            after,
        ).contains(events[i]->instance.fullname) by {
            let name = events[i]->instance.fullname;
            if i < front.len() {
                assert(events[i] == front[i]);
            }
            if fullnames(before).contains(name) {
                let j = choose|j: int| 0 <= j < fullnames(before).len() && fullnames(before)[j] == name;
                assert(fullnames(after)[j] == name);
            } else {
                assert(fullnames(after)[before.len() as int] == name);
            }
        }
    }
}

/// Where every resolution names its instance, so does every record.
pub proof fn lemma_full_names_are_not_empty(events: Seq<EventModel>)
    requires
        forall|i: int|
            0 <= i < events.len() && #[trigger] events[i] is ServiceResolved
                ==> events[i]->instance.fullname.len() > 0,
    ensures
        forall|j: int|
            0 <= j < collect(events).len() ==> (#[trigger] collect(events)[j]).fullname.len() > 0,
{
    lemma_first_resolution_is_kept(events);
    assert forall|j: int| 0 <= j < collect(events).len() implies (#[trigger] collect(
        events,
    )[j]).fullname.len() > 0 by {
        let record = collect(events)[j];
        let i = choose|i: int|
            #[trigger] is_first_resolution(events, i, record.fullname) && record == record_of(
                events[i]->instance,
            );
        assert(events[i] is ServiceResolved);
    }
}

/// An instance that the daemon announces again is listed once: whatever is
/// read out of one and the same info bears the same full name, and the list
/// keeps what it was given first.
pub proof fn lemma_reannouncement_is_dropped(
    records: Seq<RecordModel>,
    info: mdns_sd::ServiceInfo,
    first: InstanceModel,
    again: InstanceModel,
)
    requires
        announces(info, first),
        announces(info, again),
    ensures
        enroll(enroll(records, first), again) == enroll(records, first),
{
    if !fullnames(records).contains(first.fullname) {
        let grown = records.push(record_of(first));
        assert(fullnames(grown)[records.len() as int] == first.fullname);
    }
}

/// The records stand in the order in which their instances were first
/// resolved.
pub proof fn lemma_records_in_discovery_order(events: Seq<EventModel>, j: int, k: int, a: int, b: int)
    requires
        0 <= j < k < collect(events).len(),
        is_first_resolution(events, a, collect(events)[j].fullname),
        is_first_resolution(events, b, collect(events)[k].fullname),
    ensures
        a < b,
    decreases events.len(),
{
    let front = events.drop_last();
    lemma_first_resolution_is_earlier(events, j, a);
    if k < collect(front).len() {
        lemma_first_resolution_is_earlier(events, k, b);
        lemma_records_in_discovery_order(front, j, k, a, b);
    } else if b < events.len() - 1 {
        // The last event made the later record, so no earlier event resolves
        // its name: the name would have been recorded.
        lemma_first_resolution_is_kept(front);
        assert(events[b] == front[b]);
    }
}

/// The first resolution of a name that was recorded before the last event
/// stands before the last event.
proof fn lemma_first_resolution_is_earlier(events: Seq<EventModel>, j: int, a: int)
    requires
        events.len() > 0,
        0 <= j < collect(events.drop_last()).len(),
        is_first_resolution(events, a, collect(events.drop_last())[j].fullname),
    ensures
        is_first_resolution(events.drop_last(), a, collect(events.drop_last())[j].fullname),
{
    let front = events.drop_last();
    let record = collect(front)[j];
    lemma_first_resolution_is_kept(front);
    // The name is resolved at some place before the last event, so its first
    // resolution stands there or earlier.
    let i = choose|i: int|
        #[trigger] is_first_resolution(front, i, record.fullname) && record == record_of(
            front[i]->instance,
        );
    assert(events[i] == front[i]);
    assert forall|k: int| 0 <= k < a implies !resolves(#[trigger] front[k], record.fullname) by {
        assert(front[k] == events[k]);
    }
}

/// The full names that the events resolve.
pub open spec fn resolved_names(events: Seq<EventModel>) -> Set<Seq<char>> {
    Set::new(|name: Seq<char>| exists|i: int| 0 <= i < events.len() && resolves(#[trigger] events[i], name))
}

/// The list names the instances that were resolved, and no others.
pub proof fn lemma_resolved_names_are_recorded(events: Seq<EventModel>)
    ensures
        fullnames(collect(events)).to_set() == resolved_names(events),
{
    lemma_first_resolution_is_kept(events);
    let names = fullnames(collect(events));
    assert forall|name: Seq<char>| names.to_set().contains(name) <==> resolved_names(events).contains(
        name,
    ) by {
        if names.contains(name) {
            // A name of the list is the name of a record, which an event resolves.
            let j = choose|j: int| 0 <= j < names.len() && names[j] == name;
            let i = choose|i: int|
                #[trigger] is_first_resolution(events, i, collect(events)[j].fullname)
                    && collect(events)[j] == record_of(events[i]->instance);
            assert(resolves(events[i], name));
        }
        if resolved_names(events).contains(name) {
            // A name that an event resolves is recorded.
            let i = choose|i: int| 0 <= i < events.len() && resolves(#[trigger] events[i], name);
            assert(events[i] is ServiceResolved);
        }
    }
}

/// Two scans in which the same instances are resolved name the same
/// instances, whatever the order and the number of their events.
pub proof fn lemma_same_instances_same_names(first: Seq<EventModel>, second: Seq<EventModel>)
    requires
        resolved_names(first) == resolved_names(second),
    ensures
        fullnames(collect(first)).to_set() == fullnames(collect(second)).to_set(),
{
    lemma_resolved_names_are_recorded(first);
    lemma_resolved_names_are_recorded(second);
}

} // verus!
