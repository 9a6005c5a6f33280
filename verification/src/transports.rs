//! Two transports that need no network: one that reaches a cooperating
//! partition held in the same process, and one that reaches nothing.
use vstd::prelude::*;
use crate::address::Address;
use crate::errors::{Error, ErrorView};
use crate::local_indexes::{relation, Relation};
use crate::remote_indexes::{
    destination_response,
    destination_synced,
    handle_sync_direct_remote_index_destination,
};
use crate::rpc::{
    CallView,
    RemoteEntryLinkRequest,
    RemoteEntryLinkResponse,
    ResponseView,
    Transport,
};
use crate::store::Store;

verus! {

/// A cooperating partition in the same process. Every call is answered by
/// the partition's own handler for the destination side of one remote
/// index: the index of aliases of type `base_entry_type`, with the given
/// types and tags of its edges. Whom a call addresses is not looked at.
pub struct Loopback {
    pub partition: Store,
    pub base_entry_type: String,
    pub origin_link_type: String,
    pub origin_link_tag: String,
    pub destination_link_type: String,
    pub destination_link_tag: String,
}

impl Loopback {
    /// The relation that the cooperating partition indexes by.
    pub open spec fn kind(&self) -> Relation {
        relation(
            self.origin_link_type@,
            self.origin_link_tag@,
            self.destination_link_type@,
            self.destination_link_tag@,
        )
    }

    /// Whether `other` serves the same index as this one.
    pub open spec fn same_index(&self, other: &Loopback) -> bool {
        &&& self.base_entry_type@ == other.base_entry_type@
        &&& self.kind() == other.kind()
    }

    /// A cooperating partition that holds `partition` and serves the index
    /// of aliases of type `base_entry_type` with the given types and tags.
    pub fn new(
        partition: Store,
        base_entry_type: &str,
        origin_link_type: &str,
        origin_link_tag: &str,
        destination_link_type: &str,
        destination_link_tag: &str,
    ) -> (loopback: Loopback)
        ensures
            loopback.partition@ == partition@,
            loopback.base_entry_type@ == base_entry_type@,
            loopback.kind() == relation(
                origin_link_type@,
                origin_link_tag@,
                destination_link_type@,
                destination_link_tag@,
            ),
    {
        Loopback {
            partition,
            base_entry_type: base_entry_type.to_owned(),
            origin_link_type: origin_link_type.to_owned(),
            origin_link_tag: origin_link_tag.to_owned(),
            destination_link_type: destination_link_type.to_owned(),
            destination_link_tag: destination_link_tag.to_owned(),
        }
    }
}

impl Transport for Loopback {
    /// The reply is what the destination side answers, and the partition is
    /// left as the destination side leaves it.
    open spec fn served(&self, before: &Self, call: CallView, reply: Result<ResponseView, ErrorView>) -> bool {
        &&& self.same_index(before)
        &&& self.partition@ == destination_synced(
            before.partition@,
            before.base_entry_type@,
            call.request.base_entry,
            call.request.target_entries,
            call.request.removed_entries,
            before.kind(),
        )
        &&& reply == destination_response(
            before.partition@,
            before.base_entry_type@,
            call.request.base_entry,
            call.request.target_entries,
            call.request.removed_entries,
            before.kind(),
        )
    }

    fn call(
        &mut self,
        partition: &str,
        module: &str,
        method: &str,
        capability: &Address,
        request: RemoteEntryLinkRequest,
    ) -> (reply: Result<RemoteEntryLinkResponse, Error>) {
        handle_sync_direct_remote_index_destination(
            &mut self.partition,
            self.base_entry_type.as_str(),
            self.origin_link_type.as_str(),
            self.origin_link_tag.as_str(),
            self.destination_link_type.as_str(),
            self.destination_link_tag.as_str(),
            &request.base_entry,
            &request.target_entries,
            &request.removed_entries,
        )
    }
}

/// A transport whose every call fails: the cooperating partition cannot be
/// reached.
pub struct Offline {}

impl Transport for Offline {
    /// The reply is the failure of the call.
    open spec fn served(&self, before: &Self, call: CallView, reply: Result<ResponseView, ErrorView>) -> bool {
        reply == Err::<ResponseView, ErrorView>(
            ErrorView::RemoteCallFailed {
                partition: call.partition,
                module: call.module,
                method: call.method,
            },
        )
    }

    fn call(
        &mut self,
        partition: &str,
        module: &str,
        method: &str,
        capability: &Address,
        request: RemoteEntryLinkRequest,
    ) -> (reply: Result<RemoteEntryLinkResponse, Error>) {
        Err(Error::remote_call_failed(partition, module, method))
    }
}

} // verus!
