use holo_rea::address::Address;
use holo_rea::errors::Error;
use holo_rea::keys::{determine_key_index_address, get_key_index_address};
use holo_rea::maybe_undefined::MaybeUndefined;
use holo_rea::remote_indexes::{
    create_direct_remote_index, create_direct_remote_index_destination,
    create_direct_remote_index_origin, delete_direct_remote_index_destination,
    handle_sync_direct_remote_index_destination, merge_created, merge_removed,
    remove_direct_remote_index, replace_direct_remote_index_origin, resolved_addresses,
    update_direct_remote_index,
};
use holo_rea::rpc::{
    read_sync_reply, request_sync_direct_remote_index_destination, RemoteEntryLinkRequest,
    RemoteEntryLinkResponse, Transport,
};
use holo_rea::store::Store;
use holo_rea::transports::{Loopback, Offline};

const BASE: &str = "vf_commitment_base";
const FULFILLS: &str = "fulfills";
const FULFILLED_BY: &str = "fulfilledBy";

/// A transport that keeps what it was asked to send and answers by rote.
struct Recording {
    calls: Vec<(String, String, String, String)>,
    requests: Vec<RemoteEntryLinkRequest>,
    fail: bool,
}

impl Recording {
    fn new(fail: bool) -> Recording {
        Recording { calls: vec![], requests: vec![], fail }
    }
}

impl Transport for Recording {
    fn call(
        &mut self,
        partition: &str,
        module: &str,
        method: &str,
        capability: &Address,
        request: RemoteEntryLinkRequest,
    ) -> Result<RemoteEntryLinkResponse, Error> {
        self.calls.push((
            partition.to_string(),
            module.to_string(),
            method.to_string(),
            capability.as_str().to_string(),
        ));
        let created = request.target_entries.iter().map(|t| Ok(t.clone())).collect();
        self.requests.push(request);
        if self.fail {
            Err(Error::internal("connection reset"))
        } else {
            Ok(RemoteEntryLinkResponse { indexes_created: created, indexes_removed: vec![] })
        }
    }
}

fn addr(text: &str) -> Address {
    Address::new(text)
}

fn remote_failure() -> Error {
    Error::RemoteCallFailed {
        partition: "planning".to_string(),
        module: "commitment".to_string(),
        method: "index_fulfillments".to_string(),
    }
}

#[test]
fn create_remote_index_builds_origin_side_and_sends_one_request() {
    let mut store = Store::new();
    let mut transport = Recording::new(false);
    let source = addr("QmEvent");
    let targets = vec![addr("QmCommitmentA"), addr("QmCommitmentB")];
    let results = create_direct_remote_index(
        &mut transport, &mut store, "planning", "commitment", "index_fulfillments",
        &addr("QmCapToken"), BASE, FULFILLS, FULFILLED_BY, FULFILLED_BY, FULFILLS,
        &source, targets.clone(),
    );
    let alias_a = determine_key_index_address(BASE, &targets[0]);
    let alias_b = determine_key_index_address(BASE, &targets[1]);
    assert_eq!(
        results,
        vec![
            Ok(alias_a.clone()),
            Ok(alias_b.clone()),
            Ok(targets[0].clone()),
            Ok(targets[1].clone()),
        ]
    );
    assert_eq!(store.get_edges(&source, FULFILLS, FULFILLED_BY), vec![alias_a.clone(), alias_b.clone()]);
    assert_eq!(store.get_edges(&alias_a, FULFILLED_BY, FULFILLS), vec![source.clone()]);
    assert_eq!(store.get_edges(&alias_b, FULFILLED_BY, FULFILLS), vec![source.clone()]);
    assert_eq!(get_key_index_address(&store, &alias_a), Ok(targets[0].clone()));
    assert_eq!(get_key_index_address(&store, &alias_b), Ok(targets[1].clone()));
    assert_eq!(transport.requests.len(), 1);
    assert_eq!(transport.requests[0].base_entry, source);
    assert_eq!(transport.requests[0].target_entries, targets);
    assert!(transport.requests[0].removed_entries.is_empty());
    assert_eq!(
        transport.calls,
        vec![(
            "planning".to_string(),
            "commitment".to_string(),
            "index_fulfillments".to_string(),
            "QmCapToken".to_string()
        )]
    );
}

#[test]
fn failed_remote_call_keeps_local_results_and_adds_one_failure() {
    let mut store = Store::new();
    let mut transport = Offline {};
    let source = addr("QmEvent");
    let targets = vec![addr("QmCommitmentA"), addr("QmCommitmentB"), addr("QmCommitmentC")];
    let results = create_direct_remote_index(
        &mut transport, &mut store, "planning", "commitment", "index_fulfillments",
        &addr("QmCapToken"), BASE, FULFILLS, FULFILLED_BY, FULFILLED_BY, FULFILLS,
        &source, targets.clone(),
    );
    assert_eq!(results.len(), 4);
    for (i, target) in targets.iter().enumerate() {
        assert_eq!(results[i], Ok(determine_key_index_address(BASE, target)));
    }
    assert_eq!(results[3], Err(remote_failure()));
    assert_eq!(store.get_edges(&source, FULFILLS, FULFILLED_BY).len(), 3);
}

#[test]
fn failure_reason_of_transport_is_replaced_by_call_context() {
    let mut store = Store::new();
    let mut transport = Recording::new(true);
    let results = create_direct_remote_index(
        &mut transport, &mut store, "planning", "commitment", "index_fulfillments",
        &addr("QmCapToken"), BASE, FULFILLS, FULFILLED_BY, FULFILLED_BY, FULFILLS,
        &addr("QmEvent"), vec![addr("QmCommitmentA")],
    );
    assert_eq!(
        results,
        vec![
            Ok(determine_key_index_address(BASE, &addr("QmCommitmentA"))),
            Err(remote_failure()),
        ]
    );
}

#[test]
fn create_remote_index_without_targets_still_calls_the_other_side() {
    let mut store = Store::new();
    let mut transport = Recording::new(false);
    let results = create_direct_remote_index(
        &mut transport, &mut store, "planning", "commitment", "index_fulfillments",
        &addr("QmCapToken"), BASE, FULFILLS, FULFILLED_BY, FULFILLED_BY, FULFILLS,
        &addr("QmEvent"), vec![],
    );
    assert!(results.is_empty());
    assert_eq!(transport.requests.len(), 1);
    assert!(transport.requests[0].target_entries.is_empty());
    assert!(store.get_edges(&addr("QmEvent"), FULFILLS, FULFILLED_BY).is_empty());
}

#[test]
fn origin_side_reports_one_alias_per_target() {
    let mut store = Store::new();
    let source = addr("QmEvent");
    let targets = vec![addr("QmA"), addr("QmB"), addr("QmA")];
    let results = create_direct_remote_index_origin(
        &mut store, BASE, FULFILLS, FULFILLED_BY, FULFILLED_BY, FULFILLS, &source, &targets,
    );
    let alias_a = determine_key_index_address(BASE, &targets[0]);
    let alias_b = determine_key_index_address(BASE, &targets[1]);
    assert_eq!(results, vec![Ok(alias_a.clone()), Ok(alias_b.clone()), Ok(alias_a.clone())]);
    assert_eq!(
        store.get_edges(&source, FULFILLS, FULFILLED_BY),
        vec![alias_a.clone(), alias_b, alias_a]
    );
    let none = create_direct_remote_index_origin(
        &mut store, BASE, FULFILLS, FULFILLED_BY, FULFILLED_BY, FULFILLS, &source, &vec![],
    );
    assert!(none.is_empty());
}

#[test]
fn destination_side_links_alias_of_source_to_local_targets() {
    let mut store = Store::new();
    let source = addr("QmRemoteEvent");
    let targets = vec![addr("QmLocalA"), addr("QmLocalB")];
    let created = create_direct_remote_index_destination(
        &mut store, "vf_event_base", FULFILLED_BY, FULFILLS, FULFILLS, FULFILLED_BY, &source,
        &targets,
    );
    assert_eq!(created, Ok(vec![Ok(targets[0].clone()), Ok(targets[1].clone())]));
    let alias = determine_key_index_address("vf_event_base", &source);
    assert_eq!(get_key_index_address(&store, &alias), Ok(source.clone()));
    assert_eq!(store.get_edges(&alias, FULFILLED_BY, FULFILLS), targets);
    assert_eq!(store.get_edges(&targets[0], FULFILLS, FULFILLED_BY), vec![alias.clone()]);
    assert_eq!(store.get_edges(&targets[1], FULFILLS, FULFILLED_BY), vec![alias]);
}

#[test]
fn destination_handler_removes_then_creates() {
    let mut store = Store::new();
    let source = addr("QmRemoteEvent");
    let old = vec![addr("QmLocalA"), addr("QmLocalB")];
    let first = handle_sync_direct_remote_index_destination(
        &mut store, "vf_event_base", FULFILLED_BY, FULFILLS, FULFILLS, FULFILLED_BY, &source,
        &old, &vec![],
    )
    .unwrap();
    assert_eq!(first.indexes_created, vec![Ok(old[0].clone()), Ok(old[1].clone())]);
    assert!(first.indexes_removed.is_empty());
    let new = vec![addr("QmLocalC")];
    let second = handle_sync_direct_remote_index_destination(
        &mut store, "vf_event_base", FULFILLED_BY, FULFILLS, FULFILLS, FULFILLED_BY, &source,
        &new, &vec![old[0].clone()],
    )
    .unwrap();
    assert_eq!(second.indexes_created, vec![Ok(new[0].clone())]);
    assert_eq!(second.indexes_removed, vec![Ok(()), Ok(())]);
    let alias = determine_key_index_address("vf_event_base", &source);
    assert_eq!(
        store.get_edges(&alias, FULFILLED_BY, FULFILLS),
        vec![old[1].clone(), new[0].clone()]
    );
    assert!(store.get_edges(&old[0], FULFILLS, FULFILLED_BY).is_empty());
    assert_eq!(store.get_edges(&new[0], FULFILLS, FULFILLED_BY), vec![alias]);
}

#[test]
fn deleting_destination_index_leaves_alias_and_other_links() {
    let mut store = Store::new();
    let source = addr("QmRemoteEvent");
    let targets = vec![addr("QmLocalA"), addr("QmLocalB")];
    create_direct_remote_index_destination(
        &mut store, "vf_event_base", FULFILLED_BY, FULFILLS, FULFILLS, FULFILLED_BY, &source,
        &targets,
    )
    .unwrap();
    let removed = delete_direct_remote_index_destination(
        &mut store, &source, &vec![targets[0].clone(), addr("QmNeverLinked")], "vf_event_base",
        FULFILLED_BY, FULFILLS, FULFILLS, FULFILLED_BY,
    );
    assert_eq!(removed, vec![Ok(()), Ok(()), Ok(()), Ok(())]);
    let alias = determine_key_index_address("vf_event_base", &source);
    assert_eq!(store.get_edges(&alias, FULFILLED_BY, FULFILLS), vec![targets[1].clone()]);
    assert_eq!(get_key_index_address(&store, &alias), Ok(source));
}

#[test]
fn update_with_unset_target_unlinks_and_tells_the_other_side() {
    let mut store = Store::new();
    let mut transport = Recording::new(false);
    let source = addr("QmEvent");
    let target = addr("QmT");
    create_direct_remote_index(
        &mut transport, &mut store, "planning", "commitment", "index_fulfillments",
        &addr("QmCapToken"), BASE, FULFILLS, FULFILLED_BY, FULFILLED_BY, FULFILLS,
        &source, vec![target.clone()],
    );
    let alias = determine_key_index_address(BASE, &target);
    assert_eq!(store.get_edges(&source, FULFILLS, FULFILLED_BY), vec![alias.clone()]);

    let results = update_direct_remote_index(
        &mut transport, &mut store, "planning", "commitment", "index_fulfillments",
        &addr("QmCapToken"), BASE, FULFILLS, FULFILLED_BY, FULFILLED_BY, FULFILLS,
        &source, &MaybeUndefined::Unset,
    );
    assert_eq!(results, Ok(vec![]));
    assert!(store.get_edges(&source, FULFILLS, FULFILLED_BY).is_empty());
    assert!(store.get_edges(&alias, FULFILLED_BY, FULFILLS).is_empty());
    assert_eq!(transport.requests.len(), 2);
    assert_eq!(transport.requests[1].base_entry, source);
    assert_eq!(transport.requests[1].removed_entries, vec![target.clone()]);
    assert!(transport.requests[1].target_entries.is_empty());
    assert_eq!(get_key_index_address(&store, &alias), Ok(target));
}

#[test]
fn update_with_undefined_target_does_nothing_and_sends_nothing() {
    let mut store = Store::new();
    let mut transport = Recording::new(false);
    let source = addr("QmEvent");
    let target = addr("QmT");
    create_direct_remote_index_origin(
        &mut store, BASE, FULFILLS, FULFILLED_BY, FULFILLED_BY, FULFILLS, &source,
        &vec![target.clone()],
    );
    let results = update_direct_remote_index(
        &mut transport, &mut store, "planning", "commitment", "index_fulfillments",
        &addr("QmCapToken"), BASE, FULFILLS, FULFILLED_BY, FULFILLED_BY, FULFILLS,
        &source, &MaybeUndefined::Undefined,
    );
    assert_eq!(results, Ok(vec![]));
    assert!(transport.requests.is_empty());
    assert_eq!(
        store.get_edges(&source, FULFILLS, FULFILLED_BY),
        vec![determine_key_index_address(BASE, &target)]
    );
}

#[test]
fn update_to_new_target_replaces_link_and_sends_both_lists() {
    let mut store = Store::new();
    let mut transport = Recording::new(false);
    let source = addr("QmEvent");
    let old = addr("QmOld");
    let new = addr("QmNew");
    create_direct_remote_index_origin(
        &mut store, BASE, FULFILLS, FULFILLED_BY, FULFILLED_BY, FULFILLS, &source,
        &vec![old.clone()],
    );
    let results = update_direct_remote_index(
        &mut transport, &mut store, "planning", "commitment", "index_fulfillments",
        &addr("QmCapToken"), BASE, FULFILLS, FULFILLED_BY, FULFILLED_BY, FULFILLS,
        &source, &MaybeUndefined::Value(new.clone()),
    );
    assert_eq!(results, Ok(vec![Ok(new.clone())]));
    let new_alias = determine_key_index_address(BASE, &new);
    let old_alias = determine_key_index_address(BASE, &old);
    assert_eq!(store.get_edges(&source, FULFILLS, FULFILLED_BY), vec![new_alias.clone()]);
    assert_eq!(store.get_edges(&new_alias, FULFILLED_BY, FULFILLS), vec![source.clone()]);
    assert!(store.get_edges(&old_alias, FULFILLED_BY, FULFILLS).is_empty());
    assert_eq!(transport.requests.len(), 1);
    assert_eq!(transport.requests[0].target_entries, vec![new]);
    assert_eq!(transport.requests[0].removed_entries, vec![old.clone()]);
    assert_eq!(get_key_index_address(&store, &old_alias), Ok(old));
}

#[test]
fn update_to_linked_target_creates_nothing_anew() {
    let mut store = Store::new();
    let mut transport = Recording::new(false);
    let source = addr("QmEvent");
    let kept = addr("QmKept");
    let dropped = addr("QmDropped");
    create_direct_remote_index_origin(
        &mut store, BASE, FULFILLS, FULFILLED_BY, FULFILLED_BY, FULFILLS, &source,
        &vec![kept.clone(), dropped.clone()],
    );
    let results = update_direct_remote_index(
        &mut transport, &mut store, "planning", "commitment", "index_fulfillments",
        &addr("QmCapToken"), BASE, FULFILLS, FULFILLED_BY, FULFILLED_BY, FULFILLS,
        &source, &MaybeUndefined::Value(kept.clone()),
    );
    assert_eq!(results, Ok(vec![Ok(kept.clone())]));
    assert_eq!(
        store.get_edges(&source, FULFILLS, FULFILLED_BY),
        vec![determine_key_index_address(BASE, &kept)]
    );
    assert_eq!(transport.requests[0].removed_entries, vec![dropped]);
    assert_eq!(transport.requests[0].target_entries, vec![kept]);
}

#[test]
fn update_reports_failed_call() {
    let mut store = Store::new();
    let mut transport = Offline {};
    let results = update_direct_remote_index(
        &mut transport, &mut store, "planning", "commitment", "index_fulfillments",
        &addr("QmCapToken"), BASE, FULFILLS, FULFILLED_BY, FULFILLED_BY, FULFILLS,
        &addr("QmEvent"), &MaybeUndefined::Value(addr("QmNew")),
    );
    assert_eq!(results, Err(remote_failure()));
    assert_eq!(
        store.get_edges(&addr("QmEvent"), FULFILLS, FULFILLED_BY),
        vec![determine_key_index_address(BASE, &addr("QmNew"))]
    );
}

#[test]
fn replace_origin_returns_targets_of_unlinked_aliases() {
    let mut store = Store::new();
    let source = addr("QmEvent");
    let dangling = addr("QmNotAnAlias");
    create_direct_remote_index_origin(
        &mut store, BASE, FULFILLS, FULFILLED_BY, FULFILLED_BY, FULFILLS, &source,
        &vec![addr("QmA")],
    );
    store.create_edge(&source, &dangling, FULFILLS, FULFILLED_BY).unwrap();
    let erased = replace_direct_remote_index_origin(
        &mut store, &source, &MaybeUndefined::Unset, BASE, FULFILLS, FULFILLED_BY, FULFILLED_BY,
        FULFILLS,
    );
    assert_eq!(
        erased,
        Ok(vec![Ok(addr("QmA")), Err(Error::NotFound { address: dangling.clone() })])
    );
    assert!(store.get_edges(&source, FULFILLS, FULFILLED_BY).is_empty());
    assert_eq!(resolved_addresses(&erased.unwrap()), vec![addr("QmA")]);
}

#[test]
fn replace_origin_with_undefined_is_a_no_operation() {
    let mut store = Store::new();
    let source = addr("QmEvent");
    create_direct_remote_index_origin(
        &mut store, BASE, FULFILLS, FULFILLED_BY, FULFILLED_BY, FULFILLS, &source,
        &vec![addr("QmA")],
    );
    let erased = replace_direct_remote_index_origin(
        &mut store, &source, &MaybeUndefined::Undefined, BASE, FULFILLS, FULFILLED_BY,
        FULFILLED_BY, FULFILLS,
    );
    assert_eq!(erased, Ok(vec![]));
    assert_eq!(store.get_edges(&source, FULFILLS, FULFILLED_BY).len(), 1);
}

#[test]
fn remove_remote_index_unlinks_here_and_asks_the_other_side() {
    let mut store = Store::new();
    let mut transport = Recording::new(false);
    let source = addr("QmEvent");
    let target = addr("QmCommitmentA");
    let other = addr("QmCommitmentB");
    create_direct_remote_index_origin(
        &mut store, BASE, FULFILLS, FULFILLED_BY, FULFILLED_BY, FULFILLS, &source,
        &vec![target.clone(), other.clone()],
    );
    let alias = determine_key_index_address(BASE, &target);
    let other_alias = determine_key_index_address(BASE, &other);
    assert_eq!(
        store.get_edges(&source, FULFILLS, FULFILLED_BY),
        vec![alias.clone(), other_alias.clone()]
    );
    let results = remove_direct_remote_index(
        &mut transport, &mut store, "planning", "commitment", "index_fulfillments",
        &addr("QmCapToken"), BASE, FULFILLS, FULFILLED_BY, FULFILLED_BY, FULFILLS,
        &source, &target,
    );
    assert_eq!(results, vec![Ok(()), Ok(())]);
    assert_eq!(store.get_edges(&source, FULFILLS, FULFILLED_BY), vec![other_alias.clone()]);
    assert!(store.get_edges(&alias, FULFILLED_BY, FULFILLS).is_empty());
    assert_eq!(store.get_edges(&other_alias, FULFILLED_BY, FULFILLS), vec![source.clone()]);
    assert_eq!(get_key_index_address(&store, &alias), Ok(target.clone()));
    assert_eq!(transport.requests.len(), 1);
    assert_eq!(transport.requests[0].base_entry, source);
    assert!(transport.requests[0].target_entries.is_empty());
    assert_eq!(transport.requests[0].removed_entries, vec![target]);
}

#[test]
fn remove_remote_index_leaves_links_of_the_alias_of_the_source() {
    let mut store = Store::new();
    let mut transport = Recording::new(false);
    let source = addr("QmEvent");
    let target = addr("QmCommitmentA");
    create_direct_remote_index_destination(
        &mut store, BASE, FULFILLS, FULFILLED_BY, FULFILLED_BY, FULFILLS, &source,
        &vec![target.clone()],
    )
    .unwrap();
    remove_direct_remote_index(
        &mut transport, &mut store, "planning", "commitment", "index_fulfillments",
        &addr("QmCapToken"), BASE, FULFILLS, FULFILLED_BY, FULFILLED_BY, FULFILLS,
        &source, &target,
    );
    let source_alias = determine_key_index_address(BASE, &source);
    assert_eq!(store.get_edges(&source_alias, FULFILLS, FULFILLED_BY), vec![target.clone()]);
    assert_eq!(store.get_edges(&target, FULFILLED_BY, FULFILLS), vec![source_alias]);
}

#[test]
fn remove_remote_index_through_loopback_drops_both_sides() {
    let mut origin = Store::new();
    let mut other = Loopback::new(
        Store::new(), "vf_event_base", FULFILLED_BY, FULFILLS, FULFILLS, FULFILLED_BY,
    );
    let event = addr("QmEvent");
    let commitment = addr("QmCommitment");
    create_direct_remote_index(
        &mut other, &mut origin, "planning", "commitment", "index_fulfillments",
        &addr("QmCapToken"), BASE, FULFILLS, FULFILLED_BY, FULFILLED_BY, FULFILLS,
        &event, vec![commitment.clone()],
    );
    let results = remove_direct_remote_index(
        &mut other, &mut origin, "planning", "commitment", "index_fulfillments",
        &addr("QmCapToken"), BASE, FULFILLS, FULFILLED_BY, FULFILLED_BY, FULFILLS,
        &event, &commitment,
    );
    assert_eq!(results, vec![Ok(()), Ok(())]);
    let commitment_alias = determine_key_index_address(BASE, &commitment);
    let event_alias = determine_key_index_address("vf_event_base", &event);
    assert!(origin.get_edges(&event, FULFILLS, FULFILLED_BY).is_empty());
    assert!(origin.get_edges(&commitment_alias, FULFILLED_BY, FULFILLS).is_empty());
    assert_eq!(get_key_index_address(&origin, &commitment_alias), Ok(commitment.clone()));
    assert!(other.partition.get_edges(&event_alias, FULFILLED_BY, FULFILLS).is_empty());
    assert!(other.partition.get_edges(&commitment, FULFILLS, FULFILLED_BY).is_empty());
    assert_eq!(get_key_index_address(&other.partition, &event_alias), Ok(event));
}

#[test]
fn remove_remote_index_reports_failed_call_after_local_results() {
    let mut store = Store::new();
    let mut transport = Offline {};
    let results = remove_direct_remote_index(
        &mut transport, &mut store, "planning", "commitment", "index_fulfillments",
        &addr("QmCapToken"), BASE, FULFILLS, FULFILLED_BY, FULFILLED_BY, FULFILLS,
        &addr("QmEvent"), &addr("QmT"),
    );
    assert_eq!(results, vec![Ok(()), Ok(()), Err(remote_failure())]);
}

#[test]
fn merge_created_appends_remote_outcomes_or_one_failure() {
    let local = vec![Ok(addr("QmA")), Err(Error::StoreWrite { address: addr("QmB") })];
    let merged = merge_created(local.clone(), Ok(vec![Ok(addr("QmC"))]));
    assert_eq!(
        merged,
        vec![
            Ok(addr("QmA")),
            Err(Error::StoreWrite { address: addr("QmB") }),
            Ok(addr("QmC"))
        ]
    );
    let failed = merge_created(local, Err(remote_failure()));
    assert_eq!(
        failed,
        vec![
            Ok(addr("QmA")),
            Err(Error::StoreWrite { address: addr("QmB") }),
            Err(remote_failure())
        ]
    );
    assert!(merge_created(vec![], Ok(vec![])).is_empty());
}

#[test]
fn merge_removed_keeps_only_remote_failures() {
    let remote = vec![
        Ok(addr("QmA")),
        Err(Error::NotFound { address: addr("QmB") }),
        Ok(addr("QmC")),
        Err(Error::internal("broken")),
    ];
    let merged = merge_removed(vec![Ok(()), Ok(())], Ok(remote));
    assert_eq!(
        merged,
        vec![
            Ok(()),
            Ok(()),
            Err(Error::NotFound { address: addr("QmB") }),
            Err(Error::internal("broken"))
        ]
    );
    assert_eq!(
        merge_removed(vec![Ok(())], Err(remote_failure())),
        vec![Ok(()), Err(remote_failure())]
    );
}

#[test]
fn resolved_addresses_drops_failures() {
    let outcomes = vec![
        Err(Error::NotFound { address: addr("QmX") }),
        Ok(addr("QmA")),
        Ok(addr("QmB")),
        Err(Error::internal("broken")),
    ];
    assert_eq!(resolved_addresses(&outcomes), vec![addr("QmA"), addr("QmB")]);
    assert!(resolved_addresses(&vec![]).is_empty());
}

#[test]
fn sync_reply_is_read_as_created_indexes_or_failed_call() {
    let response = RemoteEntryLinkResponse {
        indexes_created: vec![Ok(addr("QmA"))],
        indexes_removed: vec![Err(Error::internal("ignored"))],
    };
    assert_eq!(
        read_sync_reply(Ok(response), "planning", "commitment", "index_fulfillments"),
        Ok(vec![Ok(addr("QmA"))])
    );
    assert_eq!(
        read_sync_reply(
            Err(Error::NotFound { address: addr("QmGone") }),
            "planning",
            "commitment",
            "index_fulfillments"
        ),
        Err(remote_failure())
    );
}

#[test]
fn request_sync_hands_addresses_to_the_transport() {
    let mut transport = Recording::new(false);
    let synced = request_sync_direct_remote_index_destination(
        &mut transport, "planning", "commitment", "index_fulfillments", &addr("QmCapToken"),
        &addr("QmEvent"), vec![addr("QmA")], vec![addr("QmB"), addr("QmC")],
    );
    assert_eq!(synced, Ok(vec![Ok(addr("QmA"))]));
    assert_eq!(transport.requests[0].base_entry, addr("QmEvent"));
    assert_eq!(transport.requests[0].target_entries, vec![addr("QmA")]);
    assert_eq!(transport.requests[0].removed_entries, vec![addr("QmB"), addr("QmC")]);
}

#[test]
fn loopback_mirrors_origin_index_in_the_other_partition() {
    let mut origin = Store::new();
    let mut other = Loopback::new(
        Store::new(), "vf_event_base", FULFILLED_BY, FULFILLS, FULFILLS, FULFILLED_BY,
    );
    let event = addr("QmEvent");
    let commitment = addr("QmCommitment");
    let results = create_direct_remote_index(
        &mut other, &mut origin, "planning", "commitment", "index_fulfillments",
        &addr("QmCapToken"), BASE, FULFILLS, FULFILLED_BY, FULFILLED_BY, FULFILLS,
        &event, vec![commitment.clone()],
    );
    let commitment_alias = determine_key_index_address(BASE, &commitment);
    assert_eq!(results, vec![Ok(commitment_alias.clone()), Ok(commitment.clone())]);
    assert_eq!(origin.get_edges(&event, FULFILLS, FULFILLED_BY), vec![commitment_alias]);
    let event_alias = determine_key_index_address("vf_event_base", &event);
    assert_eq!(
        other.partition.get_edges(&commitment, FULFILLS, FULFILLED_BY),
        vec![event_alias.clone()]
    );
    assert_eq!(
        other.partition.get_edges(&event_alias, FULFILLED_BY, FULFILLS),
        vec![commitment.clone()]
    );
    assert_eq!(get_key_index_address(&other.partition, &event_alias), Ok(event.clone()));

    let cleared = update_direct_remote_index(
        &mut other, &mut origin, "planning", "commitment", "index_fulfillments",
        &addr("QmCapToken"), BASE, FULFILLS, FULFILLED_BY, FULFILLED_BY, FULFILLS,
        &event, &MaybeUndefined::Unset,
    );
    assert_eq!(cleared, Ok(vec![]));
    assert!(origin.get_edges(&event, FULFILLS, FULFILLED_BY).is_empty());
    assert!(other.partition.get_edges(&commitment, FULFILLS, FULFILLED_BY).is_empty());
    assert!(other.partition.get_edges(&event_alias, FULFILLED_BY, FULFILLS).is_empty());
    assert_eq!(get_key_index_address(&other.partition, &event_alias), Ok(event));
}

#[test]
fn origin_side_goes_on_after_a_target_that_cannot_be_aliased() {
    let mut store = Store::with_room(1, 100);
    let source = addr("QmEvent");
    let targets = vec![addr("QmA"), addr("QmB"), addr("QmA")];
    let results = create_direct_remote_index_origin(
        &mut store, BASE, FULFILLS, FULFILLED_BY, FULFILLED_BY, FULFILLS, &source, &targets,
    );
    let alias_a = determine_key_index_address(BASE, &targets[0]);
    let alias_b = determine_key_index_address(BASE, &targets[1]);
    assert_eq!(
        results,
        vec![
            Ok(alias_a.clone()),
            Err(Error::StoreWrite { address: alias_b.clone() }),
            Ok(alias_a.clone())
        ]
    );
    assert_eq!(
        store.get_edges(&source, FULFILLS, FULFILLED_BY),
        vec![alias_a.clone(), alias_a.clone()]
    );
    assert!(store.get_edges(&alias_b, FULFILLED_BY, FULFILLS).is_empty());
}

#[test]
fn remote_creation_reports_local_failure_and_remote_failure_side_by_side() {
    let mut store = Store::with_room(0, 100);
    let mut transport = Offline {};
    let results = create_direct_remote_index(
        &mut transport, &mut store, "planning", "commitment", "index_fulfillments",
        &addr("QmCapToken"), BASE, FULFILLS, FULFILLED_BY, FULFILLED_BY, FULFILLS,
        &addr("QmEvent"), vec![addr("QmA")],
    );
    assert_eq!(
        results,
        vec![
            Err(Error::StoreWrite { address: determine_key_index_address(BASE, &addr("QmA")) }),
            Err(remote_failure()),
        ]
    );
}

#[test]
fn destination_side_fails_without_alias_of_the_source() {
    let mut store = Store::with_room(0, 100);
    let source = addr("QmRemoteEvent");
    let created = create_direct_remote_index_destination(
        &mut store, "vf_event_base", FULFILLED_BY, FULFILLS, FULFILLS, FULFILLED_BY, &source,
        &vec![addr("QmLocalA")],
    );
    assert_eq!(
        created,
        Err(Error::StoreWrite { address: determine_key_index_address("vf_event_base", &source) })
    );
    assert!(store.get_edges(&addr("QmLocalA"), FULFILLS, FULFILLED_BY).is_empty());
}

#[test]
fn destination_handler_keeps_removals_when_creation_fails() {
    let mut store = Store::with_room(0, 100);
    let source = addr("QmRemoteEvent");
    let alias = determine_key_index_address("vf_event_base", &source);
    let old = addr("QmLocalA");
    store.create_edge(&alias, &old, FULFILLED_BY, FULFILLS).unwrap();
    store.create_edge(&old, &alias, FULFILLS, FULFILLED_BY).unwrap();
    let response = handle_sync_direct_remote_index_destination(
        &mut store, "vf_event_base", FULFILLED_BY, FULFILLS, FULFILLS, FULFILLED_BY, &source,
        &vec![addr("QmLocalB")], &vec![old.clone()],
    );
    assert_eq!(response.err(), Some(Error::StoreWrite { address: alias.clone() }));
    assert!(store.get_edges(&alias, FULFILLED_BY, FULFILLS).is_empty());
    assert!(store.get_edges(&old, FULFILLS, FULFILLED_BY).is_empty());
}

#[test]
fn update_sends_nothing_when_the_new_alias_cannot_be_committed() {
    let mut store = Store::with_room(1, 100);
    let mut transport = Recording::new(false);
    let source = addr("QmEvent");
    let old = addr("QmOld");
    let new = addr("QmNew");
    create_direct_remote_index_origin(
        &mut store, BASE, FULFILLS, FULFILLED_BY, FULFILLED_BY, FULFILLS, &source,
        &vec![old.clone()],
    );
    let results = update_direct_remote_index(
        &mut transport, &mut store, "planning", "commitment", "index_fulfillments",
        &addr("QmCapToken"), BASE, FULFILLS, FULFILLED_BY, FULFILLED_BY, FULFILLS,
        &source, &MaybeUndefined::Value(new.clone()),
    );
    assert_eq!(
        results,
        Err(Error::StoreWrite { address: determine_key_index_address(BASE, &new) })
    );
    assert!(transport.requests.is_empty());
    assert!(store.get_edges(&source, FULFILLS, FULFILLED_BY).is_empty());
}

#[test]
fn loopback_reports_failure_of_the_other_side_as_failed_call() {
    let mut origin = Store::new();
    let mut other = Loopback::new(
        Store::with_room(0, 100), "vf_event_base", FULFILLED_BY, FULFILLS, FULFILLS, FULFILLED_BY,
    );
    let results = create_direct_remote_index(
        &mut other, &mut origin, "planning", "commitment", "index_fulfillments",
        &addr("QmCapToken"), BASE, FULFILLS, FULFILLED_BY, FULFILLED_BY, FULFILLS,
        &addr("QmEvent"), vec![addr("QmCommitment")],
    );
    assert_eq!(
        results,
        vec![
            Ok(determine_key_index_address(BASE, &addr("QmCommitment"))),
            Err(remote_failure()),
        ]
    );
}
