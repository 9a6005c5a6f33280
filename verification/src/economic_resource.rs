//! Queries for economic resources, and what a resource's affecting events
//! say of its state and stage.
use vstd::prelude::*;
use crate::address::Address;
use crate::errors::{Error, ErrorView};
use crate::keys::key_index_address;
use crate::local_indexes::{
    get_linked_addresses_as_type,
    index_query,
    loaded_view,
    loaded_views,
    query_direct_index_with_foreign_key,
    query_direct_remote_index_with_foreign_key,
};
use crate::store::{Store, StoreView};
use crate::type_aliases::{
    event_address_views,
    resource_address_views,
    typed_events_read_as,
    typed_resources_read_as,
    EventAddress,
    ResourceAddress,
};

verus! {

/// The addresses with their records, as texts.
pub open spec fn record_views(records: Seq<(Address, String)>) -> Seq<(Seq<char>, Seq<char>)> {
    Seq::new(records.len(), |i: int| (records[i].0@, records[i].1@))
}

/// Those of `found` whose record could be read, in the same order.
pub open spec fn loaded_only(found: Seq<(Seq<char>, Option<Seq<char>>)>) -> Seq<
    (Seq<char>, Seq<char>),
>
    decreases found.len(),
{
    if found.len() == 0 {
        Seq::empty()
    } else {
        let earlier = loaded_only(found.drop_last());
        match found.last().1 {
            Some(record) => earlier.push((found.last().0, record)),
            None => earlier,
        }
    }
}

/// What a list of records is made of: the result of a query, or its failure.
pub open spec fn list_view(listed: Result<Vec<(Address, String)>, Error>) -> Result<
    Seq<(Seq<char>, Seq<char>)>,
    ErrorView,
> {
    match listed {
        Ok(records) => Ok(record_views(records@)),
        Err(error) => Err(error@),
    }
}

/// Turns the result of a query into the list that is handed out: the
/// records that could be read, each with its address. A linked address
/// whose record could not be read is left out. A query that failed is
/// reported as an internal error that says
/// `could not load linked addresses`.
pub fn handle_list_output(entries_result: Result<Vec<(Address, Option<String>)>, Error>) -> (listed:
    Result<Vec<(Address, String)>, Error>)
    ensures
        list_view(listed) == match entries_result {
            Ok(entries) => Ok::<Seq<(Seq<char>, Seq<char>)>, ErrorView>(
                loaded_only(loaded_views(entries@)),
            ),
            Err(_) => Err(ErrorView::Internal { message: "could not load linked addresses"@ }),
        },
{
    match entries_result {
        Ok(entries) => {
            let ghost found = loaded_views(entries@);
            let mut records: Vec<(Address, String)> = Vec::new();
            let mut i: usize = 0;
            assert(found.take(0) =~= Seq::empty());
            assert(record_views(records@) =~= Seq::empty());
            while i < entries.len()
                invariant
                    i <= entries.len(),
                    found == loaded_views(entries@),
                    record_views(records@) == loaded_only(found.take(i as int)),
                decreases entries.len() - i,
            {
                let ghost before = record_views(records@);
                assert(found.take(i + 1).drop_last() =~= found.take(i as int));
                assert(found.take(i + 1).last() == loaded_view(entries[i as int]));
                match &entries[i].1 {
                    Some(record) => {
                        records.push((entries[i].0.clone(), record.clone()));
                        assert(record_views(records@) =~= before.push((entries[i as int].0@, record@)));
                    },
                    None => {},
                }
                i = i + 1;
            }
            assert(found.take(i as int) =~= found);
            Ok(records)
        },
        Err(_) => Err(Error::internal("could not load linked addresses")),
    }
}

/// The filters of a query for resources. Where several are given, the
/// last of them in the order `contains`, `contained_in`, `conforms_to`
/// decides.
#[derive(Debug)]
pub struct QueryParams {
    pub contains: Option<Address>,
    pub contained_in: Option<Address>,
    pub conforms_to: Option<Address>,
}

/// The names of the edges by which resources are indexed.
pub struct ResourceIndexes {
    pub contained_in_link_type: String,
    pub contained_in_link_tag: String,
    pub contains_link_type: String,
    pub contains_link_tag: String,
    pub specification_base_entry_type: String,
    pub conforming_resource_link_type: String,
    pub conforming_resource_link_tag: String,
}

/// What a query for resources finds, before unreadable records are left
/// out; `None` where no filter is given.
pub open spec fn resource_query(
    store: StoreView,
    params: QueryParams,
    indexes: ResourceIndexes,
) -> Option<Seq<(Seq<char>, Option<Seq<char>>)>> {
    if params.conforms_to is Some {
        Some(
            index_query(
                store,
                key_index_address(
                    indexes.specification_base_entry_type@,
                    params.conforms_to->0@,
                ),
                indexes.conforming_resource_link_type@,
                indexes.conforming_resource_link_tag@,
            ),
        )
    } else if params.contained_in is Some {
        Some(
            index_query(
                store,
                params.contained_in->0@,
                indexes.contains_link_type@,
                indexes.contains_link_tag@,
            ),
        )
    } else if params.contains is Some {
        Some(
            index_query(
                store,
                params.contains->0@,
                indexes.contained_in_link_type@,
                indexes.contained_in_link_tag@,
            ),
        )
    } else {
        None
    }
}

/// Answers a query for resources: follows the index that the deciding
/// filter names and lists the records that could be read. A query without
/// a filter fails with an internal error that says `No results found`.
pub fn handle_query_economic_resources(
    store: &Store,
    params: &QueryParams,
    indexes: &ResourceIndexes,
) -> (listed: Result<Vec<(Address, String)>, Error>)
    ensures
        list_view(listed) == match resource_query(store@, *params, *indexes) {
            Some(found) => Ok::<Seq<(Seq<char>, Seq<char>)>, ErrorView>(loaded_only(found)),
            None => Err(ErrorView::Internal { message: "No results found"@ }),
        },
{
    let mut entries_result: Result<Vec<(Address, Option<String>)>, Error> = Err(
        Error::internal("No results found"),
    );
    match &params.contains {
        Some(contains) => {
            entries_result = Ok(
                query_direct_index_with_foreign_key(
                    store,
                    contains,
                    indexes.contained_in_link_type.as_str(),
                    indexes.contained_in_link_tag.as_str(),
                ),
            );
        },
        None => {},
    }
    match &params.contained_in {
        Some(contained_in) => {
            entries_result = Ok(
                query_direct_index_with_foreign_key(
                    store,
                    contained_in,
                    indexes.contains_link_type.as_str(),
                    indexes.contains_link_tag.as_str(),
                ),
            );
        },
        None => {},
    }
    match &params.conforms_to {
        Some(conforms_to) => {
            entries_result = Ok(
                query_direct_remote_index_with_foreign_key(
                    store,
                    conforms_to,
                    indexes.specification_base_entry_type.as_str(),
                    indexes.conforming_resource_link_type.as_str(),
                    indexes.conforming_resource_link_tag.as_str(),
                ),
            );
        },
        None => {},
    }
    match entries_result {
        Ok(entries) => handle_list_output(Ok(entries)),
        Err(no_filter) => Err(no_filter),
    }
}

/// Takes a query for resources by value and answers it as
/// [`handle_query_economic_resources`] does.
pub fn receive_query_economic_resources(
    store: &Store,
    params: QueryParams,
    indexes: &ResourceIndexes,
) -> (listed: Result<Vec<(Address, String)>, Error>)
    ensures
        list_view(listed) == match resource_query(store@, params, *indexes) {
            Some(found) => Ok::<Seq<(Seq<char>, Seq<char>)>, ErrorView>(loaded_only(found)),
            None => Err(ErrorView::Internal { message: "No results found"@ }),
        },
{
    handle_query_economic_resources(store, &params, indexes)
}

/// Whether `action` settles the state of a resource: `pass` and `fail` do.
pub open spec fn settles_state(action: Seq<char>) -> bool {
    action == "pass"@ || action == "fail"@
}

/// The state of a resource: the action of the most recent of its affecting
/// events that could be read and that passed or failed it. `actions` holds
/// the action of each event, oldest first, and `None` for an event that
/// could not be read.
pub open spec fn latest_state(actions: Seq<Option<Seq<char>>>) -> Option<Seq<char>>
    decreases actions.len(),
{
    if actions.len() == 0 {
        None
    } else {
        match actions.last() {
            Some(action) if settles_state(action) => Some(action),
            _ => latest_state(actions.drop_last()),
        }
    }
}

/// The actions of events, as texts.
pub open spec fn action_texts(actions: Seq<Option<String>>) -> Seq<Option<Seq<char>>> {
    Seq::new(
        actions.len(),
        |i: int|
            match actions[i] {
                Some(action) => Some(action@),
                None => None,
            },
    )
}

/// Finds the state of a resource among the actions of its affecting
/// events, given oldest first, with `None` for an event that could not be
/// read: the most recent `pass` or `fail`.
pub fn get_resource_state(actions: &Vec<Option<String>>) -> (state: Option<String>)
    ensures
        match state {
            Some(action) => latest_state(action_texts(actions@)) == Some(action@),
            None => latest_state(action_texts(actions@)) is None,
        },
{
    let ghost texts = action_texts(actions@);
    let pass = "pass".to_owned();
    let fail = "fail".to_owned();
    let mut i: usize = actions.len();
    assert(texts.take(i as int) =~= texts);
    while i > 0
        invariant
            i <= actions.len(),
            texts == action_texts(actions@),
            pass@ == "pass"@,
            fail@ == "fail"@,
            latest_state(texts) == latest_state(texts.take(i as int)),
        decreases i,
    {
        i = i - 1;
        assert(texts.take(i + 1).drop_last() =~= texts.take(i as int));
        assert(texts.take(i + 1).last() == texts[i as int]);
        match &actions[i] {
            Some(action) => {
                if *action == pass || *action == fail {
                    return Some(action.clone());
                }
            },
            None => {},
        }
    }
    assert(texts.take(0) =~= Seq::empty());
    None
}

/// The stage of a resource: the specification on which the process is
/// based that put out the most recent of its affecting events, among the
/// events for which one is known. `stages` holds, oldest first, for each
/// event the specification of its process, and `None` where the event or
/// the process could not be read, the event is the output of no process,
/// or the process is based on no specification.
pub open spec fn latest_stage(stages: Seq<Option<Seq<char>>>) -> Option<Seq<char>>
    decreases stages.len(),
{
    if stages.len() == 0 {
        None
    } else {
        match stages.last() {
            Some(specification) => Some(specification),
            None => latest_stage(stages.drop_last()),
        }
    }
}

/// The specifications behind events, as texts.
pub open spec fn stage_texts(stages: Seq<Option<Address>>) -> Seq<Option<Seq<char>>> {
    Seq::new(
        stages.len(),
        |i: int|
            match stages[i] {
                Some(specification) => Some(specification@),
                None => None,
            },
    )
}

/// Finds the stage of a resource among the specifications behind its
/// affecting events, given oldest first, with `None` where none is known:
/// the most recent that is known.
pub fn get_resource_stage(stages: &Vec<Option<Address>>) -> (stage: Option<Address>)
    ensures
        match stage {
            Some(specification) => latest_stage(stage_texts(stages@)) == Some(specification@),
            None => latest_stage(stage_texts(stages@)) is None,
        },
{
    let ghost texts = stage_texts(stages@);
    let mut i: usize = stages.len();
    assert(texts.take(i as int) =~= texts);
    while i > 0
        invariant
            i <= stages.len(),
            texts == stage_texts(stages@),
            latest_stage(texts) == latest_stage(texts.take(i as int)),
        decreases i,
    {
        i = i - 1;
        assert(texts.take(i + 1).drop_last() =~= texts.take(i as int));
        assert(texts.take(i + 1).last() == texts[i as int]);
        match &stages[i] {
            Some(specification) => {
                return Some(specification.clone());
            },
            None => {},
        }
    }
    assert(texts.take(0) =~= Seq::empty());
    None
}

/// The events that affect `resource`: the addresses linked from it by the
/// given type and tag, oldest first.
pub fn get_affecting_events(
    store: &Store,
    resource: &ResourceAddress,
    affected_by_link_type: &str,
    affected_by_link_tag: &str,
) -> (events: Vec<EventAddress>)
    ensures
        event_address_views(events@) == store@.linked(
            resource@,
            affected_by_link_type@,
            affected_by_link_tag@,
        ),
{
    let events = get_linked_addresses_as_type::<EventAddress>(
        store,
        &resource.address,
        affected_by_link_type,
        affected_by_link_tag,
    );
    proof {
        typed_events_read_as(
            events@,
            store@.linked(resource@, affected_by_link_type@, affected_by_link_tag@),
        );
    }
    events
}

/// The fields of a resource that are kept as links: the resource that
/// contains it, which is the last that it was linked to, and the resources
/// that it contains.
pub fn get_link_fields(store: &Store, resource: &ResourceAddress, indexes: &ResourceIndexes) -> (fields: (
    Option<ResourceAddress>,
    Vec<ResourceAddress>,
))
    ensures
        match fields.0 {
            Some(container) => store@.linked(
                resource@,
                indexes.contained_in_link_type@,
                indexes.contained_in_link_tag@,
            ).len() > 0 && container@ == store@.linked(
                resource@,
                indexes.contained_in_link_type@,
                indexes.contained_in_link_tag@,
            ).last(),
            None => store@.linked(
                resource@,
                indexes.contained_in_link_type@,
                indexes.contained_in_link_tag@,
            ).len() == 0,
        },
        resource_address_views(fields.1@) == store@.linked(
            resource@,
            indexes.contains_link_type@,
            indexes.contains_link_tag@,
        ),
{
    let mut containers = get_linked_addresses_as_type::<ResourceAddress>(
        store,
        &resource.address,
        indexes.contained_in_link_type.as_str(),
        indexes.contained_in_link_tag.as_str(),
    );
    proof {
        typed_resources_read_as(
            containers@,
            store@.linked(
                resource@,
                indexes.contained_in_link_type@,
                indexes.contained_in_link_tag@,
            ),
        );
    }
    let ghost linked = resource_address_views(containers@);
    let contained_in = containers.pop();
    assert(contained_in is Some ==> contained_in->0@ == linked.last());
    let contains = get_linked_addresses_as_type::<ResourceAddress>(
        store,
        &resource.address,
        indexes.contains_link_type.as_str(),
        indexes.contains_link_tag.as_str(),
    );
    proof {
        typed_resources_read_as(
            contains@,
            store@.linked(resource@, indexes.contains_link_type@, indexes.contains_link_tag@),
        );
    }
    (contained_in, contains)
}

} // verus!
