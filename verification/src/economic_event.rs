//! Queries for economic events by the commitments they fulfil and the
//! intents they satisfy.
use vstd::prelude::*;
use crate::address::{address_views, Address};
use crate::economic_resource::{handle_list_output, list_view, loaded_only};
use crate::errors::{Error, ErrorView};
use crate::local_indexes::{index_query, query_direct_index_with_foreign_key};
use crate::store::{Store, StoreView};

verus! {

/// The filters of a query for events. Where both are given, `fulfills`
/// decides.
#[derive(Debug)]
pub struct QueryParams {
    pub satisfies: Option<Address>,
    pub fulfills: Option<Address>,
}

/// The names of the edges that lead from a satisfaction and from a
/// fulfilment to the events behind them.
pub struct EventIndexes {
    pub satisfied_by_link_type: String,
    pub satisfied_by_link_tag: String,
    pub fulfilled_by_link_type: String,
    pub fulfilled_by_link_tag: String,
}

/// What a query for events finds, before unreadable records are left out;
/// `None` where no filter is given.
pub open spec fn event_query(store: StoreView, params: QueryParams, indexes: EventIndexes) -> Option<
    Seq<(Seq<char>, Option<Seq<char>>)>,
> {
    if params.fulfills is Some {
        Some(
            index_query(
                store,
                params.fulfills->0@,
                indexes.fulfilled_by_link_type@,
                indexes.fulfilled_by_link_tag@,
            ),
        )
    } else if params.satisfies is Some {
        Some(
            index_query(
                store,
                params.satisfies->0@,
                indexes.satisfied_by_link_type@,
                indexes.satisfied_by_link_tag@,
            ),
        )
    } else {
        None
    }
}

/// Answers a query for events: follows the index that the deciding filter
/// names and lists the records that could be read. A query without a
/// filter fails with an internal error that says `No results found`.
pub fn handle_query_events(store: &Store, params: &QueryParams, indexes: &EventIndexes) -> (listed:
    Result<Vec<(Address, String)>, Error>)
    ensures
        list_view(listed) == match event_query(store@, *params, *indexes) {
            Some(found) => Ok::<Seq<(Seq<char>, Seq<char>)>, ErrorView>(loaded_only(found)),
            None => Err(ErrorView::Internal { message: "No results found"@ }),
        },
{
    let mut entries_result: Result<Vec<(Address, Option<String>)>, Error> = Err(
        Error::internal("No results found"),
    );
    match &params.satisfies {
        Some(satisfies) => {
            entries_result = Ok(
                query_direct_index_with_foreign_key(
                    store,
                    satisfies,
                    indexes.satisfied_by_link_type.as_str(),
                    indexes.satisfied_by_link_tag.as_str(),
                ),
            );
        },
        None => {},
    }
    match &params.fulfills {
        Some(fulfills) => {
            entries_result = Ok(
                query_direct_index_with_foreign_key(
                    store,
                    fulfills,
                    indexes.fulfilled_by_link_type.as_str(),
                    indexes.fulfilled_by_link_tag.as_str(),
                ),
            );
        },
        None => {},
    }
    match entries_result {
        Ok(entries) => handle_list_output(Ok(entries)),
        Err(no_filter) => Err(no_filter),
    }
}

/// Takes a query for events by value and answers it as
/// [`handle_query_events`] does.
pub fn receive_query_events(store: &Store, params: QueryParams, indexes: &EventIndexes) -> (listed:
    Result<Vec<(Address, String)>, Error>)
    ensures
        list_view(listed) == match event_query(store@, params, *indexes) {
            Some(found) => Ok::<Seq<(Seq<char>, Seq<char>)>, ErrorView>(loaded_only(found)),
            None => Err(ErrorView::Internal { message: "No results found"@ }),
        },
{
    handle_query_events(store, &params, indexes)
}

/// The fulfilments that `economic_event` is linked to by the given type
/// and tag.
pub fn get_fulfillment_ids(
    store: &Store,
    economic_event: &Address,
    fulfills_link_type: &str,
    fulfills_link_tag: &str,
) -> (ids: Vec<Address>)
    ensures
        address_views(ids@) == store@.linked(economic_event@, fulfills_link_type@, fulfills_link_tag@),
{
    store.get_edges(economic_event, fulfills_link_type, fulfills_link_tag)
}

/// The satisfactions that `economic_event` is linked to by the given type
/// and tag.
pub fn get_satisfaction_ids(
    store: &Store,
    economic_event: &Address,
    satisfies_link_type: &str,
    satisfies_link_tag: &str,
) -> (ids: Vec<Address>)
    ensures
        address_views(ids@) == store@.linked(
            economic_event@,
            satisfies_link_type@,
            satisfies_link_tag@,
        ),
{
    store.get_edges(economic_event, satisfies_link_type, satisfies_link_tag)
}

} // verus!
