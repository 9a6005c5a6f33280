//! What holds of key indexes, local indexes and remote indexes whatever the
//! partition and the addresses.
use vstd::prelude::*;
use crate::errors::ErrorView;
use crate::keys::key_index_address;
use crate::local_indexes::{stale_targets, without_indexes, Relation};
use crate::maybe_undefined::MaybeUndefined;
use crate::remote_indexes::{
    alias_outcome,
    created_on_both_sides,
    destination_response,
    destination_synced,
    links_to,
    origin_indexed,
    origin_outcomes,
    origin_replaced,
    origin_replacement_outcome,
    resolved_aliases,
    stale_aliases,
};
use crate::rpc::{carried, sync_outcome, CallView, ResponseView};
use crate::transports::{Loopback, Offline};
use crate::type_aliases::{resource_address_views, typed_as, typed_resources_read_as, ResourceAddress};
use crate::store::{edges_without, linked_targets, EdgeView, StoreView};

verus! {

/// Appending an edge to a sequence of edges appends its target to the links
/// of its origin under its type and tag, and leaves all other links as they
/// were.
pub proof fn linked_after_edge(
    edges: Seq<EdgeView>,
    edge: EdgeView,
    origin: Seq<char>,
    link_type: Seq<char>,
    tag: Seq<char>,
)
    ensures
        linked_targets(edges.push(edge), origin, link_type, tag) == if edge.origin == origin
            && edge.link_type == link_type && edge.tag == tag {
            linked_targets(edges, origin, link_type, tag).push(edge.target)
        } else {
            linked_targets(edges, origin, link_type, tag)
        },
{
    assert(edges.push(edge).drop_last() =~= edges);
}

/// The alias of an address under an entry type is determined by the two:
/// whenever a key index is committed, it lies at the address that is
/// computed without reading the partition, and there it resolves to the
/// address that it was made for.
pub proof fn alias_is_determined(store: StoreView, entry_type: Seq<char>, target: Seq<char>)
    requires
        store.accepts(entry_type, target),
    ensures
        alias_outcome(store, entry_type, target) == Ok::<Seq<char>, ErrorView>(
            key_index_address(entry_type, target),
        ),
        store.with_key_index(entry_type, target).key_index_target(
            key_index_address(entry_type, target),
        ) == Some(target),
{
}

/// Committing a key index a second time ends as the first time did, with
/// the same alias, and changes nothing: neither what that alias resolves
/// to, nor anything else in the partition.
pub proof fn alias_creation_is_idempotent(store: StoreView, entry_type: Seq<char>, target: Seq<char>)
    ensures
        alias_outcome(store.with_key_index(entry_type, target), entry_type, target)
            == alias_outcome(store, entry_type, target),
        store.with_key_index(entry_type, target).with_key_index(entry_type, target)
            == store.with_key_index(entry_type, target),
        store.with_key_index(entry_type, target).key_index_target(
            key_index_address(entry_type, target),
        ) == store.with_key_index(entry_type, target).with_key_index(
            entry_type,
            target,
        ).key_index_target(key_index_address(entry_type, target)),
{
}

/// Committing a key index changes no other alias: every address but the
/// new alias resolves as before.
pub proof fn alias_creation_keeps_other_aliases(
    store: StoreView,
    entry_type: Seq<char>,
    target: Seq<char>,
    other: Seq<char>,
)
    requires
        other != key_index_address(entry_type, target),
    ensures
        store.with_key_index(entry_type, target).key_index_target(other) == store.key_index_target(
            other,
        ),
{
}

/// A partition in which every entry lies at the address derived from its
/// content stays so when an entry is committed, and when edges come and go.
pub proof fn content_addressing_is_kept(
    store: StoreView,
    entry_type: Seq<char>,
    content: Seq<char>,
    edge: EdgeView,
)
    requires
        store.content_addressed(),
    ensures
        StoreView::empty().content_addressed(),
        store.with_entry(entry_type, content).content_addressed(),
        store.with_edge(edge).content_addressed(),
        store.without_edge(edge).content_addressed(),
{
}

/// After an index from `origin` to `target` was created with both edges
/// added, the links of `origin` under the forward type and tag contain
/// `target`, and the links of `target` under the reciprocal type and tag
/// contain `origin`.
pub proof fn index_is_bidirectional(
    store: StoreView,
    origin: Seq<char>,
    target: Seq<char>,
    relation: Relation,
)
    requires
        store.index_outcomes(origin, target, relation) == seq![
            Ok::<(), ErrorView>(()),
            Ok::<(), ErrorView>(()),
        ],
    ensures
        store.with_index(origin, target, relation).linked(
            origin,
            relation.link_type,
            relation.tag,
        ).contains(target),
        store.with_index(origin, target, relation).linked(
            target,
            relation.reciprocal_type,
            relation.reciprocal_tag,
        ).contains(origin),
{
    let forward = relation.forward(origin, target);
    let reciprocal = relation.reciprocal(origin, target);
    let outcomes = store.index_outcomes(origin, target, relation);
    assert(outcomes[0] is Ok);
    assert(outcomes[1] is Ok);
    let before = store.linked(origin, relation.link_type, relation.tag);
    linked_after_edge(store.edges, forward, origin, relation.link_type, relation.tag);
    linked_after_edge(
        store.edges.push(forward),
        reciprocal,
        origin,
        relation.link_type,
        relation.tag,
    );
    let after = store.with_index(origin, target, relation).linked(
        origin,
        relation.link_type,
        relation.tag,
    );
    assert(after[before.len() as int] == target);
    linked_after_edge(
        store.edges.push(forward),
        reciprocal,
        target,
        relation.reciprocal_type,
        relation.reciprocal_tag,
    );
    let back = store.with_index(origin, target, relation).linked(
        target,
        relation.reciprocal_type,
        relation.reciprocal_tag,
    );
    assert(back[back.len() - 1] == origin);
}

/// After an index from `origin` to `target` was created with both edges
/// added, the typed addresses that are read from `origin` under the forward
/// type and tag hold `target`, and those read from `target` under the
/// reciprocal type and tag hold `origin`. `forward` and `backward` stand
/// for what the typed reading hands out.
pub proof fn index_is_bidirectional_as_type(
    store: StoreView,
    origin: Seq<char>,
    target: Seq<char>,
    relation: Relation,
    forward: Seq<ResourceAddress>,
    backward: Seq<ResourceAddress>,
)
    requires
        store.index_outcomes(origin, target, relation) == seq![
            Ok::<(), ErrorView>(()),
            Ok::<(), ErrorView>(()),
        ],
        typed_as(
            forward,
            store.with_index(origin, target, relation).linked(
                origin,
                relation.link_type,
                relation.tag,
            ),
        ),
        typed_as(
            backward,
            store.with_index(origin, target, relation).linked(
                target,
                relation.reciprocal_type,
                relation.reciprocal_tag,
            ),
        ),
    ensures
        resource_address_views(forward).contains(target),
        resource_address_views(backward).contains(origin),
{
    index_is_bidirectional(store, origin, target, relation);
    typed_resources_read_as(
        forward,
        store.with_index(origin, target, relation).linked(
            origin,
            relation.link_type,
            relation.tag,
        ),
    );
    typed_resources_read_as(
        backward,
        store.with_index(origin, target, relation).linked(
            target,
            relation.reciprocal_type,
            relation.reciprocal_tag,
        ),
    );
}

/// Removing an edge adds no link: an address that `origin` was not linked
/// to under a type and tag is not linked to afterwards either.
pub proof fn removal_adds_no_link(
    edges: Seq<EdgeView>,
    removed: EdgeView,
    origin: Seq<char>,
    link_type: Seq<char>,
    tag: Seq<char>,
    address: Seq<char>,
)
    requires
        !linked_targets(edges, origin, link_type, tag).contains(address),
    ensures
        !linked_targets(edges_without(edges, removed), origin, link_type, tag).contains(address),
    decreases edges.len(),
{
    if edges.len() > 0 {
        let earlier = edges.drop_last();
        let last = edges.last();
        let before = linked_targets(earlier, origin, link_type, tag);
        let all = linked_targets(edges, origin, link_type, tag);
        if before.contains(address) {
            let k = choose|k: int| 0 <= k < before.len() && before[k] == address;
            assert(all[k] == address);
        }
        removal_adds_no_link(earlier, removed, origin, link_type, tag, address);
        if last != removed {
            let kept = edges_without(earlier, removed);
            linked_after_edge(kept, last, origin, link_type, tag);
            let after = linked_targets(kept.push(last), origin, link_type, tag);
            if last.origin == origin && last.link_type == link_type && last.tag == tag {
                assert(all[all.len() - 1] == last.target);
                if after.contains(address) {
                    let k = choose|k: int| 0 <= k < after.len() && after[k] == address;
                    if k < after.len() - 1 {
                        assert(linked_targets(kept, origin, link_type, tag)[k] == address);
                    }
                }
            }
        }
    }
}

/// After every copy of an edge was removed, its origin is no longer linked
/// to its target under its type and tag.
pub proof fn removed_edge_is_not_linked(edges: Seq<EdgeView>, edge: EdgeView)
    ensures
        !linked_targets(
            edges_without(edges, edge),
            edge.origin,
            edge.link_type,
            edge.tag,
        ).contains(edge.target),
    decreases edges.len(),
{
    if edges.len() > 0 {
        let earlier = edges.drop_last();
        let last = edges.last();
        removed_edge_is_not_linked(earlier, edge);
        if last != edge {
            let kept = edges_without(earlier, edge);
            linked_after_edge(kept, last, edge.origin, edge.link_type, edge.tag);
            let after = linked_targets(kept.push(last), edge.origin, edge.link_type, edge.tag);
            if after.contains(edge.target) {
                let k = choose|k: int| 0 <= k < after.len() && after[k] == edge.target;
                if k < linked_targets(kept, edge.origin, edge.link_type, edge.tag).len() {
                    assert(linked_targets(kept, edge.origin, edge.link_type, edge.tag)[k]
                        == edge.target);
                }
            }
        }
    }
}

/// After the index from `origin` to `target` was removed, `origin` is no
/// longer linked to `target` under the forward type and tag, `target` is no
/// longer linked to `origin` under the reciprocal ones, and every entry is
/// held as before.
pub proof fn removed_index_is_unlinked(
    store: StoreView,
    origin: Seq<char>,
    target: Seq<char>,
    relation: Relation,
)
    ensures
        !store.without_index(origin, target, relation).linked(
            origin,
            relation.link_type,
            relation.tag,
        ).contains(target),
        !store.without_index(origin, target, relation).linked(
            target,
            relation.reciprocal_type,
            relation.reciprocal_tag,
        ).contains(origin),
        store.without_index(origin, target, relation).entries == store.entries,
{
    let forward = relation.forward(origin, target);
    let reciprocal = relation.reciprocal(origin, target);
    removed_edge_is_not_linked(store.edges, forward);
    removal_adds_no_link(
        edges_without(store.edges, forward),
        reciprocal,
        origin,
        relation.link_type,
        relation.tag,
        target,
    );
    removed_edge_is_not_linked(edges_without(store.edges, forward), reciprocal);
}

/// After a remote index was removed on the origin side, the source is no
/// longer linked to the alias of the target, the alias does not link back,
/// and the alias resolves as it did before.
pub proof fn remote_removal_unlinks_alias(
    store: StoreView,
    base_type: Seq<char>,
    source: Seq<char>,
    target: Seq<char>,
    relation: Relation,
)
    ensures
        ({
            let alias = key_index_address(base_type, target);
            let after = without_indexes(store, source, seq![alias], relation);
            &&& !after.linked(source, relation.link_type, relation.tag).contains(alias)
            &&& !after.linked(alias, relation.reciprocal_type, relation.reciprocal_tag).contains(
                source,
            )
            &&& after.key_index_target(alias) == store.key_index_target(alias)
        }),
{
    let alias = key_index_address(base_type, target);
    let unlinked = seq![alias];
    assert(unlinked.drop_last() =~= Seq::<Seq<char>>::empty());
    assert(without_indexes(store, source, unlinked.drop_last(), relation) == store);
    assert(without_indexes(store, source, unlinked, relation) == store.without_index(
        source,
        alias,
        relation,
    ));
    removed_index_is_unlinked(store, source, alias, relation);
}

/// Where every one of `existing` is `wanted`, none of them is stale.
pub proof fn nothing_stale_among_wanted(existing: Seq<Seq<char>>, wanted: Seq<char>)
    requires
        forall|i: int| 0 <= i < existing.len() ==> existing[i] == wanted,
    ensures
        stale_targets(existing, MaybeUndefined::Value(wanted)) == Seq::<Seq<char>>::empty(),
    decreases existing.len(),
{
    if existing.len() > 0 {
        nothing_stale_among_wanted(existing.drop_last(), wanted);
    }
}

/// Replacing the links of `origin` by the address that it is linked to
/// already, and to no other, removes no edge and creates none: the
/// partition is left as it was, and no removal is reported.
pub proof fn replace_by_existing_target_changes_nothing(
    store: StoreView,
    origin: Seq<char>,
    target: Seq<char>,
    relation: Relation,
)
    requires
        store.linked(origin, relation.link_type, relation.tag).contains(target),
        forall|i: int|
            0 <= i < store.linked(origin, relation.link_type, relation.tag).len()
                ==> store.linked(origin, relation.link_type, relation.tag)[i] == target,
    ensures
        stale_targets(
            store.linked(origin, relation.link_type, relation.tag),
            MaybeUndefined::Value(target),
        ).len() == 0,
        store.replaced(origin, MaybeUndefined::Value(target), relation) == store,
{
    nothing_stale_among_wanted(store.linked(origin, relation.link_type, relation.tag), target);
}

/// Replacing the links of `origin` by an address that it is linked to
/// already creates no edge, whatever else it is linked to: only the links
/// to other addresses go.
pub proof fn replace_by_linked_target_creates_nothing(
    store: StoreView,
    origin: Seq<char>,
    target: Seq<char>,
    relation: Relation,
)
    requires
        store.linked(origin, relation.link_type, relation.tag).contains(target),
    ensures
        store.replaced(origin, MaybeUndefined::Value(target), relation) == without_indexes(
            store,
            origin,
            stale_targets(
                store.linked(origin, relation.link_type, relation.tag),
                MaybeUndefined::Value(target),
            ),
            relation,
        ),
{
}

/// A replacement that is left undefined changes nothing, on either kind of
/// index, and reports nothing.
pub proof fn undefined_replacement_is_no_operation(
    store: StoreView,
    origin: Seq<char>,
    base_type: Seq<char>,
    relation: Relation,
)
    ensures
        store.replaced(origin, MaybeUndefined::Undefined, relation) == store,
        origin_replaced(store, origin, MaybeUndefined::Undefined, base_type, relation) == store,
        origin_replacement_outcome(store, origin, MaybeUndefined::Undefined, base_type, relation)
            == Ok::<Seq<Result<Seq<char>, ErrorView>>, ErrorView>(Seq::empty()),
{
}

/// Where every one of `existing` is an alias of `wanted`, none is stale.
pub proof fn nothing_stale_among_aliases(store: StoreView, existing: Seq<Seq<char>>, wanted: Seq<char>)
    requires
        forall|i: int| 0 <= i < existing.len() ==> store.key_index_target(existing[i]) == Some(wanted),
    ensures
        stale_aliases(store, existing, MaybeUndefined::Value(wanted)) == Seq::<Seq<char>>::empty(),
        existing.len() > 0 ==> links_to(store, existing, wanted),
    decreases existing.len(),
{
    if existing.len() > 0 {
        nothing_stale_among_aliases(store, existing.drop_last(), wanted);
    }
}

/// Replacing the remote targets of `source` by the target whose alias it
/// is linked to already, and to no other, leaves the origin side as it
/// was and reports nothing as unlinked.
pub proof fn remote_replace_by_existing_target_changes_nothing(
    store: StoreView,
    source: Seq<char>,
    target: Seq<char>,
    base_type: Seq<char>,
    relation: Relation,
)
    requires
        store.linked(source, relation.link_type, relation.tag).len() > 0,
        forall|i: int|
            0 <= i < store.linked(source, relation.link_type, relation.tag).len()
                ==> store.key_index_target(
                store.linked(source, relation.link_type, relation.tag)[i],
            ) == Some(target),
    ensures
        origin_replaced(store, source, MaybeUndefined::Value(target), base_type, relation) == store,
        origin_replacement_outcome(
            store,
            source,
            MaybeUndefined::Value(target),
            base_type,
            relation,
        ) == Ok::<Seq<Result<Seq<char>, ErrorView>>, ErrorView>(Seq::empty()),
{
    nothing_stale_among_aliases(
        store,
        store.linked(source, relation.link_type, relation.tag),
        target,
    );
    assert(resolved_aliases(store, Seq::empty()) =~= Seq::empty());
}

/// The origin side reports one outcome for each target, in their order;
/// each success is the alias of its target.
pub proof fn origin_reports_each_target(
    store: StoreView,
    base_type: Seq<char>,
    source: Seq<char>,
    targets: Seq<Seq<char>>,
    relation: Relation,
)
    ensures
        origin_outcomes(store, base_type, source, targets, relation).len() == targets.len(),
        forall|i: int|
            0 <= i < targets.len() ==> (#[trigger] origin_outcomes(
                store,
                base_type,
                source,
                targets,
                relation,
            )[i] matches Ok(alias) ==> alias == key_index_address(base_type, targets[i])),
        forall|i: int|
            0 <= i < targets.len() ==> (#[trigger] origin_outcomes(
                store,
                base_type,
                source,
                targets,
                relation,
            )[i] is Ok <==> origin_indexed(
                store,
                base_type,
                source,
                targets.take(i),
                relation,
            ).accepts(base_type, targets[i])),
    decreases targets.len(),
{
    if targets.len() > 0 {
        let earlier = targets.drop_last();
        origin_reports_each_target(store, base_type, source, earlier, relation);
        assert(targets.take(targets.len() - 1) =~= earlier);
        assert forall|i: int| 0 <= i < earlier.len() implies earlier.take(i) == targets.take(i) by {
            assert(earlier.take(i) =~= targets.take(i));
        }
    }
}

/// Where the call to the cooperating partition fails, the outcomes of a
/// remote creation are those of the origin side, one for each target and
/// unchanged, followed by exactly one failure: that of the call.
pub proof fn remote_failure_keeps_local_outcomes(
    store: StoreView,
    base_type: Seq<char>,
    source: Seq<char>,
    targets: Seq<Seq<char>>,
    relation: Relation,
    failure: ErrorView,
    partition: Seq<char>,
    module: Seq<char>,
    method: Seq<char>,
)
    ensures
        created_on_both_sides(
            origin_outcomes(store, base_type, source, targets, relation),
            sync_outcome(Err::<ResponseView, ErrorView>(failure), partition, module, method),
        ) == origin_outcomes(store, base_type, source, targets, relation).push(
            Err(ErrorView::RemoteCallFailed { partition, module, method }),
        ),
        created_on_both_sides(
            origin_outcomes(store, base_type, source, targets, relation),
            sync_outcome(Err::<ResponseView, ErrorView>(failure), partition, module, method),
        ).len() == targets.len() + 1,
{
    origin_reports_each_target(store, base_type, source, targets, relation);
}

/// A call that a loopback carried left its partition as the destination
/// side leaves it, and brought what the destination side answers.
pub proof fn loopback_carries_to_destination(
    before: Loopback,
    after: Loopback,
    call: CallView,
    synced: Result<Seq<Result<Seq<char>, ErrorView>>, ErrorView>,
)
    requires
        carried(&before, &after, call, synced),
    ensures
        after.same_index(&before),
        after.partition@ == destination_synced(
            before.partition@,
            before.base_entry_type@,
            call.request.base_entry,
            call.request.target_entries,
            call.request.removed_entries,
            before.kind(),
        ),
        synced == sync_outcome(
            destination_response(
                before.partition@,
                before.base_entry_type@,
                call.request.base_entry,
                call.request.target_entries,
                call.request.removed_entries,
                before.kind(),
            ),
            call.partition,
            call.module,
            call.method,
        ),
{
}

/// A call that went to a transport that is offline brought the failure of
/// the call, and nothing else.
pub proof fn offline_carries_nothing(
    before: Offline,
    after: Offline,
    call: CallView,
    synced: Result<Seq<Result<Seq<char>, ErrorView>>, ErrorView>,
)
    requires
        carried(&before, &after, call, synced),
    ensures
        synced == Err::<Seq<Result<Seq<char>, ErrorView>>, ErrorView>(
            ErrorView::RemoteCallFailed {
                partition: call.partition,
                module: call.module,
                method: call.method,
            },
        ),
{
}

} // verus!
