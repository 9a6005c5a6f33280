//! Remote indexes: an index whose two ends live in two partitions. The
//! origin side links a record to aliases of the foreign records; the
//! destination side links an alias of that record to its own records. One
//! call carries each change across.
use vstd::prelude::*;
use crate::address::{address_views, Address};
use crate::errors::{
    address_outcome_view,
    address_outcome_views,
    report_view,
    step_outcome_views,
    Error,
    ErrorView,
};
use crate::keys::{create_key_index, determine_key_index_address, get_key_index_address, key_index_address};
use crate::local_indexes::{
    create_direct_index,
    relation,
    removals_done,
    target_view,
    wipe_links_from_origin,
    without_indexes,
    Relation,
};
use crate::maybe_undefined::MaybeUndefined;
use crate::rpc::{
    carried,
    request_sync_direct_remote_index_destination,
    sync_call,
    RemoteEntryLinkResponse,
    ResponseView,
    Transport,
};
use crate::store::{Store, StoreView};

verus! {

/// The outcome of committing the key index of type `base_type` for `target`
/// in `store`: its alias, unless the commit is refused.
pub open spec fn alias_outcome(store: StoreView, base_type: Seq<char>, target: Seq<char>) -> Result<
    Seq<char>,
    ErrorView,
> {
    if store.accepts(base_type, target) {
        Ok(key_index_address(base_type, target))
    } else {
        Err(ErrorView::StoreWrite { address: key_index_address(base_type, target) })
    }
}

/// `store` after the origin side indexed `source` against one `target`: the
/// alias of the target is committed and linked with `source`. Nothing
/// changes where the alias cannot be committed.
pub open spec fn origin_indexed_one(
    store: StoreView,
    base_type: Seq<char>,
    source: Seq<char>,
    target: Seq<char>,
    relation: Relation,
) -> StoreView {
    if store.accepts(base_type, target) {
        store.with_key_index(base_type, target).with_index(
            source,
            key_index_address(base_type, target),
            relation,
        )
    } else {
        store
    }
}

/// `store` after the origin side indexed `source` against each of
/// `targets`, one after the other.
pub open spec fn origin_indexed(
    store: StoreView,
    base_type: Seq<char>,
    source: Seq<char>,
    targets: Seq<Seq<char>>,
    relation: Relation,
) -> StoreView
    decreases targets.len(),
{
    if targets.len() == 0 {
        store
    } else {
        origin_indexed_one(
            origin_indexed(store, base_type, source, targets.drop_last(), relation),
            base_type,
            source,
            targets.last(),
            relation,
        )
    }
}

/// The outcomes that the origin side reports for `targets`, one for each
/// and in their order: the alias that now stands for the target, or why it
/// could not be committed.
pub open spec fn origin_outcomes(
    store: StoreView,
    base_type: Seq<char>,
    source: Seq<char>,
    targets: Seq<Seq<char>>,
    relation: Relation,
) -> Seq<Result<Seq<char>, ErrorView>>
    decreases targets.len(),
{
    if targets.len() == 0 {
        Seq::empty()
    } else {
        origin_outcomes(store, base_type, source, targets.drop_last(), relation).push(
            alias_outcome(
                origin_indexed(store, base_type, source, targets.drop_last(), relation),
                base_type,
                targets.last(),
            ),
        )
    }
}

/// `store` after `origin` was indexed against each of `targets`.
pub open spec fn with_indexes(
    store: StoreView,
    origin: Seq<char>,
    targets: Seq<Seq<char>>,
    relation: Relation,
) -> StoreView
    decreases targets.len(),
{
    if targets.len() == 0 {
        store
    } else {
        with_indexes(store, origin, targets.drop_last(), relation).with_index(
            origin,
            targets.last(),
            relation,
        )
    }
}

/// Each of `targets` as the outcome of an index that was created.
pub open spec fn all_created(targets: Seq<Seq<char>>) -> Seq<Result<Seq<char>, ErrorView>> {
    Seq::new(targets.len(), |i: int| Ok(targets[i]))
}

/// `store` after the destination side dropped the indexes between the alias
/// of `source` and each of `removed`.
pub open spec fn destination_unindexed(
    store: StoreView,
    base_type: Seq<char>,
    source: Seq<char>,
    removed: Seq<Seq<char>>,
    relation: Relation,
) -> StoreView {
    without_indexes(store, key_index_address(base_type, source), removed, relation)
}

/// `store` after the destination side committed the alias of `source` and
/// indexed it against each of `targets`. Nothing changes where the alias
/// cannot be committed.
pub open spec fn destination_indexed(
    store: StoreView,
    base_type: Seq<char>,
    source: Seq<char>,
    targets: Seq<Seq<char>>,
    relation: Relation,
) -> StoreView {
    if store.accepts(base_type, source) {
        with_indexes(
            store.with_key_index(base_type, source),
            key_index_address(base_type, source),
            targets,
            relation,
        )
    } else {
        store
    }
}

/// What the destination side reports after indexing the alias of `source`
/// against `targets`.
pub open spec fn destination_outcome(
    store: StoreView,
    base_type: Seq<char>,
    source: Seq<char>,
    targets: Seq<Seq<char>>,
) -> Result<Seq<Result<Seq<char>, ErrorView>>, ErrorView> {
    if store.accepts(base_type, source) {
        Ok(all_created(targets))
    } else {
        Err(ErrorView::StoreWrite { address: key_index_address(base_type, source) })
    }
}

/// `store` after the destination side handled a synchronisation: first the
/// removals, then the creation.
pub open spec fn destination_synced(
    store: StoreView,
    base_type: Seq<char>,
    source: Seq<char>,
    targets: Seq<Seq<char>>,
    removed: Seq<Seq<char>>,
    relation: Relation,
) -> StoreView {
    destination_indexed(
        destination_unindexed(store, base_type, source, removed, relation),
        base_type,
        source,
        targets,
        relation,
    )
}

/// What the destination side answers to a synchronisation.
pub open spec fn destination_response(
    store: StoreView,
    base_type: Seq<char>,
    source: Seq<char>,
    targets: Seq<Seq<char>>,
    removed: Seq<Seq<char>>,
    relation: Relation,
) -> Result<ResponseView, ErrorView> {
    match destination_outcome(
        destination_unindexed(store, base_type, source, removed, relation),
        base_type,
        source,
        targets,
    ) {
        Ok(created) => Ok(
            ResponseView {
                indexes_created: created,
                indexes_removed: removals_done(2 * removed.len()),
            },
        ),
        Err(error) => Err(error),
    }
}

/// Whether the link to `alias` has to go when `new_dest` replaces the
/// targets: it stays only where `alias` stands for the value of `new_dest`.
pub open spec fn alias_is_stale(
    store: StoreView,
    alias: Seq<char>,
    new_dest: MaybeUndefined<Seq<char>>,
) -> bool {
    match new_dest {
        MaybeUndefined::Value(wanted) => store.key_index_target(alias) != Some(wanted),
        _ => true,
    }
}

/// The aliases among `existing` whose links have to go when `new_dest`
/// replaces the targets, in the same order.
pub open spec fn stale_aliases(
    store: StoreView,
    existing: Seq<Seq<char>>,
    new_dest: MaybeUndefined<Seq<char>>,
) -> Seq<Seq<char>>
    decreases existing.len(),
{
    if existing.len() == 0 {
        Seq::empty()
    } else {
        let earlier = stale_aliases(store, existing.drop_last(), new_dest);
        if alias_is_stale(store, existing.last(), new_dest) {
            earlier.push(existing.last())
        } else {
            earlier
        }
    }
}

/// Whether one of `existing` is an alias of `wanted`.
pub open spec fn links_to(store: StoreView, existing: Seq<Seq<char>>, wanted: Seq<char>) -> bool
    decreases existing.len(),
{
    if existing.len() == 0 {
        false
    } else {
        links_to(store, existing.drop_last(), wanted) || store.key_index_target(existing.last())
            == Some(wanted)
    }
}

/// What `alias` stands for in `store`, or that it cannot be resolved.
pub open spec fn resolved_alias(store: StoreView, alias: Seq<char>) -> Result<Seq<char>, ErrorView> {
    match store.key_index_target(alias) {
        Some(target) => Ok(target),
        None => Err(ErrorView::NotFound { address: alias }),
    }
}

/// What each of `aliases` stands for in `store`, in the same order.
pub open spec fn resolved_aliases(store: StoreView, aliases: Seq<Seq<char>>) -> Seq<
    Result<Seq<char>, ErrorView>,
> {
    Seq::new(aliases.len(), |i: int| resolved_alias(store, aliases[i]))
}

/// The aliases that `source` is linked to in `store` and that have to go
/// when `new_dest` replaces the targets.
pub open spec fn origin_stale(
    store: StoreView,
    source: Seq<char>,
    new_dest: MaybeUndefined<Seq<char>>,
    relation: Relation,
) -> Seq<Seq<char>> {
    stale_aliases(store, store.linked(source, relation.link_type, relation.tag), new_dest)
}

/// `store` after the stale links of `source` were removed.
pub open spec fn origin_cleared(
    store: StoreView,
    source: Seq<char>,
    new_dest: MaybeUndefined<Seq<char>>,
    relation: Relation,
) -> StoreView {
    without_indexes(store, source, origin_stale(store, source, new_dest, relation), relation)
}

/// Whether replacing the targets of `source` by `new_dest` has to create a
/// new alias and index: `new_dest` carries a value, and `source` is linked
/// to no alias of it.
pub open spec fn origin_needs_index(
    store: StoreView,
    source: Seq<char>,
    new_dest: MaybeUndefined<Seq<char>>,
    relation: Relation,
) -> bool {
    new_dest is Value && !links_to(
        store,
        store.linked(source, relation.link_type, relation.tag),
        new_dest->Value_0,
    )
}

/// `store` after the origin side replaced the targets of `source` by
/// `new_dest`.
pub open spec fn origin_replaced(
    store: StoreView,
    source: Seq<char>,
    new_dest: MaybeUndefined<Seq<char>>,
    base_type: Seq<char>,
    relation: Relation,
) -> StoreView {
    if new_dest is Undefined {
        store
    } else if origin_needs_index(store, source, new_dest, relation) {
        origin_indexed_one(
            origin_cleared(store, source, new_dest, relation),
            base_type,
            source,
            new_dest->Value_0,
            relation,
        )
    } else {
        origin_cleared(store, source, new_dest, relation)
    }
}

/// What the origin side reports after replacing the targets of `source` by
/// `new_dest`: what each unlinked alias stood for; or the failure to commit
/// the alias of the new target.
pub open spec fn origin_replacement_outcome(
    store: StoreView,
    source: Seq<char>,
    new_dest: MaybeUndefined<Seq<char>>,
    base_type: Seq<char>,
    relation: Relation,
) -> Result<Seq<Result<Seq<char>, ErrorView>>, ErrorView> {
    if new_dest is Undefined {
        Ok(Seq::empty())
    } else if origin_needs_index(store, source, new_dest, relation) && !origin_cleared(
        store,
        source,
        new_dest,
        relation,
    ).accepts(base_type, new_dest->Value_0) {
        Err(ErrorView::StoreWrite { address: key_index_address(base_type, new_dest->Value_0) })
    } else {
        Ok(resolved_aliases(store, origin_stale(store, source, new_dest, relation)))
    }
}

/// The addresses among `outcomes` that were resolved, in the same order.
pub open spec fn resolved_only(outcomes: Seq<Result<Seq<char>, ErrorView>>) -> Seq<Seq<char>>
    decreases outcomes.len(),
{
    if outcomes.len() == 0 {
        Seq::empty()
    } else {
        let earlier = resolved_only(outcomes.drop_last());
        match outcomes.last() {
            Ok(address) => earlier.push(address),
            Err(_) => earlier,
        }
    }
}

/// The failures among `outcomes`, as failed removals, in the same order.
pub open spec fn failures_only(outcomes: Seq<Result<Seq<char>, ErrorView>>) -> Seq<
    Result<(), ErrorView>,
>
    decreases outcomes.len(),
{
    if outcomes.len() == 0 {
        Seq::empty()
    } else {
        let earlier = failures_only(outcomes.drop_last());
        match outcomes.last() {
            Ok(_) => earlier,
            Err(error) => earlier.push(Err(error)),
        }
    }
}

/// The outcomes of a creation on both sides: the local ones, followed by
/// those of the cooperating partition, or by the one failure of the call.
pub open spec fn created_on_both_sides(
    local: Seq<Result<Seq<char>, ErrorView>>,
    synced: Result<Seq<Result<Seq<char>, ErrorView>>, ErrorView>,
) -> Seq<Result<Seq<char>, ErrorView>> {
    match synced {
        Ok(remote) => local + remote,
        Err(error) => local.push(Err(error)),
    }
}

/// The outcomes of a removal on both sides: the local ones, followed by the
/// failures that the cooperating partition reported, or by the one failure
/// of the call.
pub open spec fn removed_on_both_sides(
    local: Seq<Result<(), ErrorView>>,
    synced: Result<Seq<Result<Seq<char>, ErrorView>>, ErrorView>,
) -> Seq<Result<(), ErrorView>> {
    match synced {
        Ok(remote) => local + failures_only(remote),
        Err(error) => local.push(Err(error)),
    }
}

/// The targets that an update asks the cooperating partition to index: the
/// value of `new_dest`, if it carries one.
pub open spec fn update_targets(new_dest: MaybeUndefined<Seq<char>>) -> Seq<Seq<char>> {
    match new_dest {
        MaybeUndefined::Value(wanted) => seq![wanted],
        _ => Seq::empty(),
    }
}

/// Whether `results` and the states of the transport are what an update
/// leaves behind, where the origin side reported `erased`. Nothing is sent
/// where `new_dest` is undefined or the origin side failed, and the
/// failure is the result. Else one call went out for `source`, with the
/// value of `new_dest` to index and the resolved targets of the unlinked
/// aliases to drop, and `results` is what its reply means.
pub open spec fn update_carried<T: Transport>(
    before: &T,
    after: &T,
    partition: Seq<char>,
    module: Seq<char>,
    method: Seq<char>,
    capability: Seq<char>,
    source: Seq<char>,
    new_dest: MaybeUndefined<Seq<char>>,
    erased: Result<Seq<Result<Seq<char>, ErrorView>>, ErrorView>,
    results: Result<Seq<Result<Seq<char>, ErrorView>>, ErrorView>,
) -> bool {
    match erased {
        Err(error) => *after == *before && results == Err::<
            Seq<Result<Seq<char>, ErrorView>>,
            ErrorView,
        >(error),
        Ok(unlinked) => if new_dest is Undefined {
            *after == *before && results == Ok::<Seq<Result<Seq<char>, ErrorView>>, ErrorView>(
                Seq::empty(),
            )
        } else {
            carried(
                before,
                after,
                sync_call(
                    partition,
                    module,
                    method,
                    capability,
                    source,
                    update_targets(new_dest),
                    resolved_only(unlinked),
                ),
                results,
            )
        },
    }
}

/// Puts the outcomes of a creation on both sides together: the local ones
/// first, then what the synchronisation brought.
pub fn merge_created(
    local_results: Vec<Result<Address, Error>>,
    remote_results: Result<Vec<Result<Address, Error>>, Error>,
) -> (merged: Vec<Result<Address, Error>>)
    ensures
        address_outcome_views(merged@) == created_on_both_sides(
            address_outcome_views(local_results@),
            report_view(remote_results),
        ),
{
    let mut merged = local_results;
    match remote_results {
        Ok(remote) => {
            let mut remote = remote;
            merged.append(&mut remote);
            assert(address_outcome_views(merged@) =~= address_outcome_views(local_results@)
                + address_outcome_views(remote_results->Ok_0@));
        },
        Err(error) => {
            merged.push(Err(error));
            assert(address_outcome_views(merged@) =~= address_outcome_views(
                local_results@,
            ).push(Err(error@)));
        },
    }
    merged
}

/// Puts the outcomes of a removal on both sides together: the local ones
/// first, then each failure that the synchronisation brought.
pub fn merge_removed(
    local_results: Vec<Result<(), Error>>,
    remote_results: Result<Vec<Result<Address, Error>>, Error>,
) -> (merged: Vec<Result<(), Error>>)
    ensures
        step_outcome_views(merged@) == removed_on_both_sides(
            step_outcome_views(local_results@),
            report_view(remote_results),
        ),
{
    let mut merged = local_results;
    match remote_results {
        Ok(remote) => {
            let ghost local = step_outcome_views(local_results@);
            let ghost outcomes = address_outcome_views(remote@);
            let mut i: usize = 0;
            assert(outcomes.take(0) =~= Seq::empty());
            assert(local + Seq::empty() =~= local);
            while i < remote.len()
                invariant
                    i <= remote.len(),
                    outcomes == address_outcome_views(remote@),
                    step_outcome_views(merged@) == local + failures_only(
                        outcomes.take(i as int),
                    ),
                decreases remote.len() - i,
            {
                let ghost before = step_outcome_views(merged@);
                assert(outcomes.take(i + 1).drop_last() =~= outcomes.take(i as int));
                assert(outcomes.take(i + 1).last() == address_outcome_view(remote[i as int]));
                match &remote[i] {
                    Ok(_) => {},
                    Err(error) => {
                        merged.push(Err(error.clone()));
                        assert(step_outcome_views(merged@) =~= before.push(Err(error@)));
                        assert(before.push(Err(error@)) =~= local + failures_only(
                            outcomes.take(i as int),
                        ).push(Err(error@)));
                    },
                }
                i = i + 1;
            }
            assert(outcomes.take(i as int) =~= outcomes);
        },
        Err(error) => {
            merged.push(Err(error));
            assert(step_outcome_views(merged@) =~= step_outcome_views(
                local_results@,
            ).push(Err(error@)));
        },
    }
    merged
}

/// The addresses among `outcomes` that were resolved, in the same order.
pub fn resolved_addresses(outcomes: &Vec<Result<Address, Error>>) -> (resolved: Vec<Address>)
    ensures
        address_views(resolved@) == resolved_only(address_outcome_views(outcomes@)),
{
    let ghost views = address_outcome_views(outcomes@);
    let mut resolved: Vec<Address> = Vec::new();
    let mut i: usize = 0;
    assert(views.take(0) =~= Seq::empty());
    assert(address_views(resolved@) =~= Seq::empty());
    while i < outcomes.len()
        invariant
            i <= outcomes.len(),
            views == address_outcome_views(outcomes@),
            address_views(resolved@) == resolved_only(views.take(i as int)),
        decreases outcomes.len() - i,
    {
        let ghost before = address_views(resolved@);
        assert(views.take(i + 1).drop_last() =~= views.take(i as int));
        assert(views.take(i + 1).last() == address_outcome_view(outcomes[i as int]));
        match &outcomes[i] {
            Ok(address) => {
                resolved.push(address.clone());
                assert(address_views(resolved@) =~= before.push(address@));
            },
            Err(_) => {},
        }
        i = i + 1;
    }
    assert(views.take(i as int) =~= views);
    resolved
}

/// Builds the origin side of a remote index: for each target, commits its
/// alias of type `remote_base_entry_type` and links `source_base_address`
/// with the alias in both directions. Each target stands alone: where an
/// alias cannot be committed, that target's outcome says so and the others
/// go on.
pub fn create_direct_remote_index_origin(
    store: &mut Store,
    remote_base_entry_type: &str,
    origin_relationship_link_type: &str,
    origin_relationship_link_tag: &str,
    destination_relationship_link_type: &str,
    destination_relationship_link_tag: &str,
    source_base_address: &Address,
    target_base_addresses: &Vec<Address>,
) -> (results: Vec<Result<Address, Error>>)
    ensures
        final(store)@ == origin_indexed(
            old(store)@,
            remote_base_entry_type@,
            source_base_address@,
            address_views(target_base_addresses@),
            relation(
                origin_relationship_link_type@,
                origin_relationship_link_tag@,
                destination_relationship_link_type@,
                destination_relationship_link_tag@,
            ),
        ),
        address_outcome_views(results@) == origin_outcomes(
            old(store)@,
            remote_base_entry_type@,
            source_base_address@,
            address_views(target_base_addresses@),
            relation(
                origin_relationship_link_type@,
                origin_relationship_link_tag@,
                destination_relationship_link_type@,
                destination_relationship_link_tag@,
            ),
        ),
{
    let ghost kind = relation(
        origin_relationship_link_type@,
        origin_relationship_link_tag@,
        destination_relationship_link_type@,
        destination_relationship_link_tag@,
    );
    let ghost targets = address_views(target_base_addresses@);
    let mut results: Vec<Result<Address, Error>> = Vec::new();
    let mut i: usize = 0;
    assert(targets.take(0) =~= Seq::empty());
    assert(address_outcome_views(results@) =~= Seq::empty());
    while i < target_base_addresses.len()
        invariant
            i <= target_base_addresses.len(),
            targets == address_views(target_base_addresses@),
            kind == relation(
                origin_relationship_link_type@,
                origin_relationship_link_tag@,
                destination_relationship_link_type@,
                destination_relationship_link_tag@,
            ),
            store@ == origin_indexed(
                old(store)@,
                remote_base_entry_type@,
                source_base_address@,
                targets.take(i as int),
                kind,
            ),
            address_outcome_views(results@) == origin_outcomes(
                old(store)@,
                remote_base_entry_type@,
                source_base_address@,
                targets.take(i as int),
                kind,
            ),
        decreases target_base_addresses.len() - i,
    {
        let ghost before = address_outcome_views(results@);
        assert(targets.take(i + 1).drop_last() =~= targets.take(i as int));
        assert(targets.take(i + 1).last() == target_base_addresses[i as int]@);
        let base_entry_result = create_key_index(
            store,
            remote_base_entry_type,
            &target_base_addresses[i],
        );
        match &base_entry_result {
            Ok(base_address) => {
                let _ = create_direct_index(
                    store,
                    source_base_address,
                    base_address,
                    origin_relationship_link_type,
                    origin_relationship_link_tag,
                    destination_relationship_link_type,
                    destination_relationship_link_tag,
                );
            },
            _ => {},
        }
        results.push(base_entry_result);
        assert(address_outcome_views(results@) =~= before.push(
            address_outcome_view(base_entry_result),
        ));
        i = i + 1;
    }
    assert(targets.take(i as int) =~= targets);
    results
}

/// Builds the destination side of a remote index: commits the alias of
/// `source_base_address` under `remote_base_entry_type` and links it with
/// each target in both directions. Fails, and changes nothing, where the
/// alias cannot be committed.
pub fn create_direct_remote_index_destination(
    store: &mut Store,
    remote_base_entry_type: &str,
    origin_relationship_link_type: &str,
    origin_relationship_link_tag: &str,
    destination_relationship_link_type: &str,
    destination_relationship_link_tag: &str,
    source_base_address: &Address,
    target_base_addresses: &Vec<Address>,
) -> (created: Result<Vec<Result<Address, Error>>, Error>)
    ensures
        final(store)@ == destination_indexed(
            old(store)@,
            remote_base_entry_type@,
            source_base_address@,
            address_views(target_base_addresses@),
            relation(
                origin_relationship_link_type@,
                origin_relationship_link_tag@,
                destination_relationship_link_type@,
                destination_relationship_link_tag@,
            ),
        ),
        report_view(created) == destination_outcome(
            old(store)@,
            remote_base_entry_type@,
            source_base_address@,
            address_views(target_base_addresses@),
        ),
{
    let ghost kind = relation(
        origin_relationship_link_type@,
        origin_relationship_link_tag@,
        destination_relationship_link_type@,
        destination_relationship_link_tag@,
    );
    let ghost targets = address_views(target_base_addresses@);
    let base_address = match create_key_index(store, remote_base_entry_type, source_base_address) {
        Ok(alias) => alias,
        Err(base_creation_failure) => {
            return Err(base_creation_failure);
        },
    };
    let ghost aliased = store@;
    let mut results: Vec<Result<Address, Error>> = Vec::new();
    let mut i: usize = 0;
    assert(targets.take(0) =~= Seq::empty());
    assert(address_outcome_views(results@) =~= all_created(targets.take(0)));
    while i < target_base_addresses.len()
        invariant
            i <= target_base_addresses.len(),
            targets == address_views(target_base_addresses@),
            kind == relation(
                origin_relationship_link_type@,
                origin_relationship_link_tag@,
                destination_relationship_link_type@,
                destination_relationship_link_tag@,
            ),
            store@ == with_indexes(aliased, base_address@, targets.take(i as int), kind),
            address_outcome_views(results@) == all_created(targets.take(i as int)),
        decreases target_base_addresses.len() - i,
    {
        let ghost before = address_outcome_views(results@);
        assert(targets.take(i + 1).drop_last() =~= targets.take(i as int));
        assert(targets.take(i + 1).last() == target_base_addresses[i as int]@);
        let _ = create_direct_index(
            store,
            &base_address,
            &target_base_addresses[i],
            origin_relationship_link_type,
            origin_relationship_link_tag,
            destination_relationship_link_type,
            destination_relationship_link_tag,
        );
        let linked = target_base_addresses[i].clone();
        results.push(Ok(linked));
        assert(address_outcome_views(results@) =~= before.push(Ok(linked@)));
        assert(before.push(Ok(linked@)) =~= all_created(targets.take(i + 1)));
        i = i + 1;
    }
    assert(targets.take(i as int) =~= targets);
    Ok(results)
}

/// Removes the indexes between the alias of `source` under
/// `base_entry_type` and each of `remove_targets`, in both directions. The
/// alias itself stays. Reports on the removals, two for each target.
pub fn delete_direct_remote_index_destination(
    store: &mut Store,
    source: &Address,
    remove_targets: &Vec<Address>,
    base_entry_type: &str,
    link_type: &str,
    link_name: &str,
    link_type_reciprocal: &str,
    link_name_reciprocal: &str,
) -> (removed: Vec<Result<(), Error>>)
    ensures
        final(store)@ == destination_unindexed(
            old(store)@,
            base_entry_type@,
            source@,
            address_views(remove_targets@),
            relation(link_type@, link_name@, link_type_reciprocal@, link_name_reciprocal@),
        ),
        step_outcome_views(removed@) == removals_done(
            2 * address_views(remove_targets@).len(),
        ),
{
    let ghost kind = relation(link_type@, link_name@, link_type_reciprocal@, link_name_reciprocal@);
    let ghost targets = address_views(remove_targets@);
    let index_address = determine_key_index_address(base_entry_type, source);
    let mut removed: Vec<Result<(), Error>> = Vec::new();
    let mut i: usize = 0;
    assert(targets.take(0) =~= Seq::empty());
    assert(step_outcome_views(removed@) =~= removals_done(0));
    while i < remove_targets.len()
        invariant
            i <= remove_targets.len(),
            targets == address_views(remove_targets@),
            kind == relation(link_type@, link_name@, link_type_reciprocal@, link_name_reciprocal@),
            store@ == without_indexes(old(store)@, index_address@, targets.take(i as int), kind),
            step_outcome_views(removed@) == removals_done(2 * i as nat),
        decreases remove_targets.len() - i,
    {
        let ghost before = step_outcome_views(removed@);
        assert(targets.take(i + 1).drop_last() =~= targets.take(i as int));
        assert(targets.take(i + 1).last() == remove_targets[i as int]@);
        let mut wiped = wipe_links_from_origin(
            store,
            &index_address,
            &remove_targets[i],
            link_type,
            link_name,
            link_type_reciprocal,
            link_name_reciprocal,
        );
        let ghost wiped_views = step_outcome_views(wiped@);
        removed.append(&mut wiped);
        assert(step_outcome_views(removed@) =~= before + wiped_views);
        assert(before + removals_done(2) =~= removals_done(2 * (i + 1) as nat));
        i = i + 1;
    }
    assert(targets.take(i as int) =~= targets);
    removed
}

/// Answers a synchronisation on the destination side: removes the indexes
/// between the alias of `source_base_address` and `removed_base_addresses`,
/// then commits that alias and indexes it against `target_base_addresses`.
/// A failure to commit the alias fails the call; the removals stay done.
pub fn handle_sync_direct_remote_index_destination(
    store: &mut Store,
    remote_base_entry_type: &str,
    origin_relationship_link_type: &str,
    origin_relationship_link_tag: &str,
    destination_relationship_link_type: &str,
    destination_relationship_link_tag: &str,
    source_base_address: &Address,
    target_base_addresses: &Vec<Address>,
    removed_base_addresses: &Vec<Address>,
) -> (response: Result<RemoteEntryLinkResponse, Error>)
    ensures
        final(store)@ == destination_synced(
            old(store)@,
            remote_base_entry_type@,
            source_base_address@,
            address_views(target_base_addresses@),
            address_views(removed_base_addresses@),
            relation(
                origin_relationship_link_type@,
                origin_relationship_link_tag@,
                destination_relationship_link_type@,
                destination_relationship_link_tag@,
            ),
        ),
        crate::rpc::reply_view(response) == destination_response(
            old(store)@,
            remote_base_entry_type@,
            source_base_address@,
            address_views(target_base_addresses@),
            address_views(removed_base_addresses@),
            relation(
                origin_relationship_link_type@,
                origin_relationship_link_tag@,
                destination_relationship_link_type@,
                destination_relationship_link_tag@,
            ),
        ),
{
    let remove_resp = delete_direct_remote_index_destination(
        store,
        source_base_address,
        removed_base_addresses,
        remote_base_entry_type,
        origin_relationship_link_type,
        origin_relationship_link_tag,
        destination_relationship_link_type,
        destination_relationship_link_tag,
    );
    let create_resp = create_direct_remote_index_destination(
        store,
        remote_base_entry_type,
        origin_relationship_link_type,
        origin_relationship_link_tag,
        destination_relationship_link_type,
        destination_relationship_link_tag,
        source_base_address,
        target_base_addresses,
    );
    match create_resp {
        Err(index_creation_failure) => Err(index_creation_failure),
        Ok(indexes_created) => Ok(
            RemoteEntryLinkResponse { indexes_created, indexes_removed: remove_resp },
        ),
    }
}

/// Replaces the targets of `source` on the origin side by `new_dest`.
/// Where `new_dest` is undefined nothing is done. Else every link to an
/// alias that does not stand for the value of `new_dest` is removed in both
/// directions (every link, where `new_dest` is unset); the aliases
/// themselves stay. Unless `source` was linked to an alias of that value,
/// its alias is committed under `base_entry_type` and linked with `source`.
/// Returns what each unlinked alias stood for; fails where the new alias
/// cannot be committed, the stale links being removed all the same.
pub fn replace_direct_remote_index_origin(
    store: &mut Store,
    source: &Address,
    new_dest: &MaybeUndefined<Address>,
    base_entry_type: &str,
    link_type: &str,
    link_name: &str,
    link_type_reciprocal: &str,
    link_name_reciprocal: &str,
) -> (erased: Result<Vec<Result<Address, Error>>, Error>)
    ensures
        final(store)@ == origin_replaced(
            old(store)@,
            source@,
            target_view(*new_dest),
            base_entry_type@,
            relation(link_type@, link_name@, link_type_reciprocal@, link_name_reciprocal@),
        ),
        report_view(erased) == origin_replacement_outcome(
            old(store)@,
            source@,
            target_view(*new_dest),
            base_entry_type@,
            relation(link_type@, link_name@, link_type_reciprocal@, link_name_reciprocal@),
        ),
{
    let mut erased: Vec<Result<Address, Error>> = Vec::new();
    assert(address_outcome_views(erased@) =~= Seq::empty());
    if new_dest.is_undefined() {
        return Ok(erased);
    }
    let ghost kind = relation(link_type@, link_name@, link_type_reciprocal@, link_name_reciprocal@);
    let ghost wanted = target_view(*new_dest);
    let ghost start = old(store)@;
    let existing_links = store.get_edges(source, link_type, link_name);
    let ghost links = address_views(existing_links@);
    let mut already_present = false;
    let mut i: usize = 0;
    assert(links.take(0) =~= Seq::empty());
    assert(address_outcome_views(erased@) =~= resolved_aliases(start, Seq::empty()));
    while i < existing_links.len()
        invariant
            i <= existing_links.len(),
            links == address_views(existing_links@),
            kind == relation(link_type@, link_name@, link_type_reciprocal@, link_name_reciprocal@),
            wanted == target_view(*new_dest),
            !(wanted is Undefined),
            start == old(store)@,
            store@.entries == start.entries,
            store@ == without_indexes(
                start,
                source@,
                stale_aliases(start, links.take(i as int), wanted),
                kind,
            ),
            address_outcome_views(erased@) == resolved_aliases(
                start,
                stale_aliases(start, links.take(i as int), wanted),
            ),
            already_present == (wanted is Value && links_to(
                start,
                links.take(i as int),
                wanted->Value_0,
            )),
        decreases existing_links.len() - i,
    {
        let alias = &existing_links[i];
        assert(links.take(i + 1).drop_last() =~= links.take(i as int));
        assert(links.take(i + 1).last() == alias@);
        let dereferenced = get_key_index_address(store, alias);
        assert(address_outcome_view(dereferenced) == resolved_alias(start, alias@));
        let stale = match new_dest {
            MaybeUndefined::Value(address) => match &dereferenced {
                Ok(target) => !(target.text == address.text),
                Err(_) => true,
            },
            _ => true,
        };
        assert(stale == alias_is_stale(start, alias@, wanted));
        if stale {
            let ghost before = address_outcome_views(erased@);
            let ghost earlier = stale_aliases(start, links.take(i as int), wanted);
            assert(earlier.push(alias@).drop_last() =~= earlier);
            let _ = wipe_links_from_origin(
                store,
                source,
                alias,
                link_type,
                link_name,
                link_type_reciprocal,
                link_name_reciprocal,
            );
            erased.push(dereferenced);
            assert(address_outcome_views(erased@) =~= before.push(resolved_alias(start, alias@)));
            assert(before.push(resolved_alias(start, alias@)) =~= resolved_aliases(
                start,
                earlier.push(alias@),
            ));
        } else {
            already_present = true;
        }
        i = i + 1;
    }
    assert(links.take(i as int) =~= links);
    match new_dest {
        MaybeUndefined::Value(new_link) => {
            if !already_present {
                match create_key_index(store, base_entry_type, new_link) {
                    Err(error) => {
                        return Err(error);
                    },
                    Ok(new_dest_pointer) => {
                        let _ = create_direct_index(
                            store,
                            source,
                            &new_dest_pointer,
                            link_type,
                            link_name,
                            link_type_reciprocal,
                            link_name_reciprocal,
                        );
                    },
                }
            }
        },
        _ => {},
    }
    Ok(erased)
}

/// Creates a remote index between `source_base_address` and each of
/// `target_base_addresses`. The origin side is built here, target by target
/// ([`create_direct_remote_index_origin`]); then one call asks the
/// cooperating partition to build the destination side. The outcomes of
/// the origin side come first, one for each target; after them those that
/// the cooperating partition reported, or a single failure where the call
/// brought no response. What was built here stays in either case.
pub fn create_direct_remote_index<T: Transport>(
    transport: &mut T,
    store: &mut Store,
    remote_dna_id: &str,
    remote_zome_id: &str,
    remote_zome_method: &str,
    remote_request_cap_token: &Address,
    remote_base_entry_type: &str,
    origin_relationship_link_type: &str,
    origin_relationship_link_tag: &str,
    destination_relationship_link_type: &str,
    destination_relationship_link_tag: &str,
    source_base_address: &Address,
    target_base_addresses: Vec<Address>,
) -> (results: Vec<Result<Address, Error>>)
    ensures
        final(store)@ == origin_indexed(
            old(store)@,
            remote_base_entry_type@,
            source_base_address@,
            address_views(target_base_addresses@),
            relation(
                origin_relationship_link_type@,
                origin_relationship_link_tag@,
                destination_relationship_link_type@,
                destination_relationship_link_tag@,
            ),
        ),
        exists|synced: Result<Seq<Result<Seq<char>, ErrorView>>, ErrorView>|
            {
                &&& #[trigger] carried(
                    old(transport),
                    final(transport),
                    sync_call(
                        remote_dna_id@,
                        remote_zome_id@,
                        remote_zome_method@,
                        remote_request_cap_token@,
                        source_base_address@,
                        address_views(target_base_addresses@),
                        Seq::empty(),
                    ),
                    synced,
                )
                &&& address_outcome_views(results@) == created_on_both_sides(
                    origin_outcomes(
                        old(store)@,
                        remote_base_entry_type@,
                        source_base_address@,
                        address_views(target_base_addresses@),
                        relation(
                            origin_relationship_link_type@,
                            origin_relationship_link_tag@,
                            destination_relationship_link_type@,
                            destination_relationship_link_tag@,
                        ),
                    ),
                    synced,
                )
            },
{
    let local_results = create_direct_remote_index_origin(
        store,
        remote_base_entry_type,
        origin_relationship_link_type,
        origin_relationship_link_tag,
        destination_relationship_link_type,
        destination_relationship_link_tag,
        source_base_address,
        &target_base_addresses,
    );
    let none_removed: Vec<Address> = Vec::new();
    assert(address_views(none_removed@) =~= Seq::empty());
    let remote_results = request_sync_direct_remote_index_destination(
        transport,
        remote_dna_id,
        remote_zome_id,
        remote_zome_method,
        remote_request_cap_token,
        source_base_address,
        target_base_addresses,
        none_removed,
    );
    merge_created(local_results, remote_results)
}

/// Updates a remote index so that `source_base_address` is linked to
/// `target_base_address` alone. Where that is undefined nothing is done and
/// nothing is sent. Else the origin side is replaced here
/// ([`replace_direct_remote_index_origin`]); where that fails, the failure
/// is returned and nothing is sent. Else one call tells the cooperating
/// partition the new target, if there is one, and the targets of the links
/// that were removed here, as far as their aliases could be resolved; what
/// the call brings is returned.
pub fn update_direct_remote_index<T: Transport>(
    transport: &mut T,
    store: &mut Store,
    remote_dna_id: &str,
    remote_zome_id: &str,
    remote_zome_method: &str,
    remote_request_cap_token: &Address,
    remote_base_entry_type: &str,
    origin_relationship_link_type: &str,
    origin_relationship_link_tag: &str,
    destination_relationship_link_type: &str,
    destination_relationship_link_tag: &str,
    source_base_address: &Address,
    target_base_address: &MaybeUndefined<Address>,
) -> (results: Result<Vec<Result<Address, Error>>, Error>)
    ensures
        final(store)@ == origin_replaced(
            old(store)@,
            source_base_address@,
            target_view(*target_base_address),
            remote_base_entry_type@,
            relation(
                origin_relationship_link_type@,
                origin_relationship_link_tag@,
                destination_relationship_link_type@,
                destination_relationship_link_tag@,
            ),
        ),
        update_carried(
            old(transport),
            final(transport),
            remote_dna_id@,
            remote_zome_id@,
            remote_zome_method@,
            remote_request_cap_token@,
            source_base_address@,
            target_view(*target_base_address),
            origin_replacement_outcome(
                old(store)@,
                source_base_address@,
                target_view(*target_base_address),
                remote_base_entry_type@,
                relation(
                    origin_relationship_link_type@,
                    origin_relationship_link_tag@,
                    destination_relationship_link_type@,
                    destination_relationship_link_tag@,
                ),
            ),
            report_view(results),
        ),
{
    if target_base_address.is_undefined() {
        let unchanged: Vec<Result<Address, Error>> = Vec::new();
        assert(address_outcome_views(unchanged@) =~= Seq::empty());
        return Ok(unchanged);
    }
    let erased = match replace_direct_remote_index_origin(
        store,
        source_base_address,
        target_base_address,
        remote_base_entry_type,
        origin_relationship_link_type,
        origin_relationship_link_tag,
        destination_relationship_link_type,
        destination_relationship_link_tag,
    ) {
        Ok(erased) => erased,
        Err(error) => {
            return Err(error);
        },
    };
    let removed_links = resolved_addresses(&erased);
    let mut new_targets: Vec<Address> = Vec::new();
    match target_base_address {
        MaybeUndefined::Value(target) => {
            new_targets.push(target.clone());
        },
        _ => {},
    }
    assert(address_views(new_targets@) =~= update_targets(target_view(*target_base_address)));
    assert(address_views(removed_links@) == resolved_only(address_outcome_views(erased@)));
    let results = request_sync_direct_remote_index_destination(
        transport,
        remote_dna_id,
        remote_zome_id,
        remote_zome_method,
        remote_request_cap_token,
        source_base_address,
        new_targets,
        removed_links,
    );
    results
}

/// Removes the remote index between `source_base_address` and
/// `remove_base_address`. Here, on the origin side, the links between the
/// source and the alias of the target under `remote_base_entry_type` are
/// removed in both directions; the alias itself stays. Then one call asks
/// the cooperating partition to drop its side. The outcomes of the two
/// local removals come first; after them each failure that the cooperating
/// partition reported, or a single failure where the call brought no
/// response.
pub fn remove_direct_remote_index<T: Transport>(
    transport: &mut T,
    store: &mut Store,
    remote_dna_id: &str,
    remote_zome_id: &str,
    remote_zome_method: &str,
    remote_request_cap_token: &Address,
    remote_base_entry_type: &str,
    origin_relationship_link_type: &str,
    origin_relationship_link_tag: &str,
    destination_relationship_link_type: &str,
    destination_relationship_link_tag: &str,
    source_base_address: &Address,
    remove_base_address: &Address,
) -> (results: Vec<Result<(), Error>>)
    ensures
        final(store)@ == without_indexes(
            old(store)@,
            source_base_address@,
            seq![key_index_address(remote_base_entry_type@, remove_base_address@)],
            relation(
                origin_relationship_link_type@,
                origin_relationship_link_tag@,
                destination_relationship_link_type@,
                destination_relationship_link_tag@,
            ),
        ),
        exists|synced: Result<Seq<Result<Seq<char>, ErrorView>>, ErrorView>|
            {
                &&& #[trigger] carried(
                    old(transport),
                    final(transport),
                    sync_call(
                        remote_dna_id@,
                        remote_zome_id@,
                        remote_zome_method@,
                        remote_request_cap_token@,
                        source_base_address@,
                        Seq::empty(),
                        seq![remove_base_address@],
                    ),
                    synced,
                )
                &&& step_outcome_views(results@) == removed_on_both_sides(
                    removals_done(2),
                    synced,
                )
            },
{
    let alias = determine_key_index_address(remote_base_entry_type, remove_base_address);
    let ghost kind = relation(
        origin_relationship_link_type@,
        origin_relationship_link_tag@,
        destination_relationship_link_type@,
        destination_relationship_link_tag@,
    );
    let ghost unlinked = seq![alias@];
    assert(unlinked.drop_last() =~= Seq::<Seq<char>>::empty());
    assert(without_indexes(store@, source_base_address@, unlinked.drop_last(), kind) == store@);
    assert(without_indexes(store@, source_base_address@, unlinked, kind) == store@.without_index(
        source_base_address@,
        alias@,
        kind,
    ));
    let local_results = wipe_links_from_origin(
        store,
        source_base_address,
        &alias,
        origin_relationship_link_type,
        origin_relationship_link_tag,
        destination_relationship_link_type,
        destination_relationship_link_tag,
    );
    let no_targets: Vec<Address> = Vec::new();
    assert(address_views(no_targets@) =~= Seq::empty());
    let mut removed_there: Vec<Address> = Vec::new();
    removed_there.push(remove_base_address.clone());
    assert(address_views(removed_there@) =~= seq![remove_base_address@]);
    let remote_results = request_sync_direct_remote_index_destination(
        transport,
        remote_dna_id,
        remote_zome_id,
        remote_zome_method,
        remote_request_cap_token,
        source_base_address,
        no_targets,
        removed_there,
    );
    merge_removed(local_results, remote_results)
}

} // verus!
