//! The request and response that two partitions exchange to keep a remote
//! index in step, and the transport that carries them.
use vstd::prelude::*;
use crate::address::{address_views, Address};
use crate::errors::{
    address_outcome_views,
    report_view,
    step_outcome_views,
    Error,
    ErrorView,
};

verus! {

/// Asks a cooperating partition to index `base_entry` against
/// `target_entries` and to drop its indexes against `removed_entries`.
#[derive(Debug)]
pub struct RemoteEntryLinkRequest {
    pub base_entry: Address,
    pub target_entries: Vec<Address>,
    pub removed_entries: Vec<Address>,
}

/// A [`RemoteEntryLinkRequest`], with addresses as texts.
pub struct RequestView {
    pub base_entry: Seq<char>,
    pub target_entries: Seq<Seq<char>>,
    pub removed_entries: Seq<Seq<char>>,
}

impl View for RemoteEntryLinkRequest {
    type V = RequestView;

    open spec fn view(&self) -> RequestView {
        RequestView {
            base_entry: self.base_entry@,
            target_entries: address_views(self.target_entries@),
            removed_entries: address_views(self.removed_entries@),
        }
    }
}

/// What the cooperating partition did: one outcome for each index that it
/// was asked to create, and the outcomes of its removals.
#[derive(Debug)]
pub struct RemoteEntryLinkResponse {
    pub indexes_created: Vec<Result<Address, Error>>,
    pub indexes_removed: Vec<Result<(), Error>>,
}

/// A [`RemoteEntryLinkResponse`], with addresses and errors as texts.
pub struct ResponseView {
    pub indexes_created: Seq<Result<Seq<char>, ErrorView>>,
    pub indexes_removed: Seq<Result<(), ErrorView>>,
}

impl View for RemoteEntryLinkResponse {
    type V = ResponseView;

    open spec fn view(&self) -> ResponseView {
        ResponseView {
            indexes_created: address_outcome_views(self.indexes_created@),
            indexes_removed: step_outcome_views(self.indexes_removed@),
        }
    }
}

/// One call to a cooperating partition: whom it addresses, the capability
/// that authorises it, and the request that it carries.
pub struct CallView {
    pub partition: Seq<char>,
    pub module: Seq<char>,
    pub method: Seq<char>,
    pub capability: Seq<char>,
    pub request: RequestView,
}

/// What came back from a call: the response, or the reason why there is none.
pub open spec fn reply_view(reply: Result<RemoteEntryLinkResponse, Error>) -> Result<
    ResponseView,
    ErrorView,
> {
    match reply {
        Ok(response) => Ok(response@),
        Err(error) => Err(error@),
    }
}

/// Carries one request to a method of a module in a cooperating partition
/// and brings back the response, in a single round trip.
pub trait Transport: Sized {
    /// Whether a transport in state `before` can have answered `call` with
    /// `reply` and be left in this state. A transport that knows nothing of
    /// the other side lets this hold always, and that is the default.
    open spec fn served(&self, before: &Self, call: CallView, reply: Result<ResponseView, ErrorView>) -> bool {
        true
    }

    /// Sends `request` to `method` of `module` in `partition`, authorised by
    /// `capability`, and waits for the response.
    fn call(
        &mut self,
        partition: &str,
        module: &str,
        method: &str,
        capability: &Address,
        request: RemoteEntryLinkRequest,
    ) -> (reply: Result<RemoteEntryLinkResponse, Error>)
        ensures
            final(self).served(
                old(self),
                CallView {
                    partition: partition@,
                    module: module@,
                    method: method@,
                    capability: capability@,
                    request: request@,
                },
                reply_view(reply),
            ),
    ;
}

/// What a synchronisation reports for `reply`: the outcomes of the created
/// indexes where a response came back, else a failed call to `method` of
/// `module` in `partition`, whatever the reason was.
pub open spec fn sync_outcome(
    reply: Result<ResponseView, ErrorView>,
    partition: Seq<char>,
    module: Seq<char>,
    method: Seq<char>,
) -> Result<Seq<Result<Seq<char>, ErrorView>>, ErrorView> {
    match reply {
        Ok(response) => Ok(response.indexes_created),
        Err(_) => Err(ErrorView::RemoteCallFailed { partition, module, method }),
    }
}

/// Reads the reply to a synchronisation call: hands on the outcomes of the
/// created indexes, or reports the call to `remote_zome_method` of
/// `remote_zome_id` in `remote_dna_id` as failed.
pub fn read_sync_reply(
    reply: Result<RemoteEntryLinkResponse, Error>,
    remote_dna_id: &str,
    remote_zome_id: &str,
    remote_zome_method: &str,
) -> (synced: Result<Vec<Result<Address, Error>>, Error>)
    ensures
        report_view(synced) == sync_outcome(
            reply_view(reply),
            remote_dna_id@,
            remote_zome_id@,
            remote_zome_method@,
        ),
{
    match reply {
        Ok(response) => Ok(response.indexes_created),
        Err(_) => Err(Error::remote_call_failed(remote_dna_id, remote_zome_id, remote_zome_method)),
    }
}

/// The call that asks the cooperating partition to index `source` against
/// `targets` and to drop its indexes against `removed`.
pub open spec fn sync_call(
    partition: Seq<char>,
    module: Seq<char>,
    method: Seq<char>,
    capability: Seq<char>,
    source: Seq<char>,
    targets: Seq<Seq<char>>,
    removed: Seq<Seq<char>>,
) -> CallView {
    CallView {
        partition,
        module,
        method,
        capability,
        request: RequestView {
            base_entry: source,
            target_entries: targets,
            removed_entries: removed,
        },
    }
}

/// Whether the transport, going from state `before` to state `after`,
/// carried `call`, and `synced` is what the reply to it means.
pub open spec fn carried<T: Transport>(
    before: &T,
    after: &T,
    call: CallView,
    synced: Result<Seq<Result<Seq<char>, ErrorView>>, ErrorView>,
) -> bool {
    exists|reply: Result<ResponseView, ErrorView>|
        {
            &&& #[trigger] after.served(before, call, reply)
            &&& synced == sync_outcome(reply, call.partition, call.module, call.method)
        }
}

/// Asks the cooperating partition to build the index that mirrors the one
/// made here: one call that carries `source_base_address`, the targets to
/// index and the targets whose indexes are to go. Whatever comes back is
/// read by [`read_sync_reply`].
pub fn request_sync_direct_remote_index_destination<T: Transport>(
    transport: &mut T,
    remote_dna_id: &str,
    remote_zome_id: &str,
    remote_zome_method: &str,
    remote_request_cap_token: &Address,
    source_base_address: &Address,
    target_base_addresses: Vec<Address>,
    removed_base_addresses: Vec<Address>,
) -> (synced: Result<Vec<Result<Address, Error>>, Error>)
    ensures
        carried(
            old(transport),
            final(transport),
            sync_call(
                remote_dna_id@,
                remote_zome_id@,
                remote_zome_method@,
                remote_request_cap_token@,
                source_base_address@,
                address_views(target_base_addresses@),
                address_views(removed_base_addresses@),
            ),
            report_view(synced),
        ),
{
    let request = RemoteEntryLinkRequest {
        base_entry: source_base_address.clone(),
        target_entries: target_base_addresses,
        removed_entries: removed_base_addresses,
    };
    let reply = transport.call(
        remote_dna_id,
        remote_zome_id,
        remote_zome_method,
        remote_request_cap_token,
        request,
    );
    let ghost answered = reply_view(reply);
    let synced = read_sync_reply(reply, remote_dna_id, remote_zome_id, remote_zome_method);
    assert(transport.served(
        old(transport),
        sync_call(
            remote_dna_id@,
            remote_zome_id@,
            remote_zome_method@,
            remote_request_cap_token@,
            source_base_address@,
            address_views(target_base_addresses@),
            address_views(removed_base_addresses@),
        ),
        answered,
    ));
    synced
}

} // verus!
