//! Bidirectional indexes inside one partition: a forward edge from an origin
//! to a target, and the reciprocal edge back.
use vstd::prelude::*;
use vstd::std_specs::convert::FromSpec;
use crate::address::{address_views, Address};
use crate::errors::{step_outcome_views, Error, ErrorView};
use crate::keys::{determine_key_index_address, key_index_address};
use crate::maybe_undefined::MaybeUndefined;
use crate::store::{EdgeView, Store, StoreView};
use crate::type_aliases::{is_typed, typed_as};

verus! {

/// The two kinds of edge that make up an index: the type and tag of the
/// forward edge, and those of the reciprocal edge.
pub struct Relation {
    pub link_type: Seq<char>,
    pub tag: Seq<char>,
    pub reciprocal_type: Seq<char>,
    pub reciprocal_tag: Seq<char>,
}

impl Relation {
    /// The forward edge of this relation from `origin` to `target`.
    pub open spec fn forward(self, origin: Seq<char>, target: Seq<char>) -> EdgeView {
        EdgeView { origin, target, link_type: self.link_type, tag: self.tag }
    }

    /// The reciprocal edge of this relation, from `target` back to `origin`.
    pub open spec fn reciprocal(self, origin: Seq<char>, target: Seq<char>) -> EdgeView {
        EdgeView {
            origin: target,
            target: origin,
            link_type: self.reciprocal_type,
            tag: self.reciprocal_tag,
        }
    }
}

/// The relation with the given forward and reciprocal type and tag.
pub open spec fn relation(
    link_type: Seq<char>,
    tag: Seq<char>,
    reciprocal_type: Seq<char>,
    reciprocal_tag: Seq<char>,
) -> Relation {
    Relation { link_type, tag, reciprocal_type, reciprocal_tag }
}

/// The new target of a replacement, with the address as its text.
pub open spec fn target_view(target: MaybeUndefined<Address>) -> MaybeUndefined<Seq<char>> {
    match target {
        MaybeUndefined::Unset => MaybeUndefined::Unset,
        MaybeUndefined::Value(address) => MaybeUndefined::Value(address@),
        MaybeUndefined::Undefined => MaybeUndefined::Undefined,
    }
}

/// Whether a link to `existing` has to go when `new_target` replaces it:
/// it stays only where it is the value that `new_target` carries.
pub open spec fn is_stale(existing: Seq<char>, new_target: MaybeUndefined<Seq<char>>) -> bool {
    match new_target {
        MaybeUndefined::Value(wanted) => existing != wanted,
        _ => true,
    }
}

/// The addresses among `existing` that have to go when `new_target`
/// replaces them, in the same order.
pub open spec fn stale_targets(
    existing: Seq<Seq<char>>,
    new_target: MaybeUndefined<Seq<char>>,
) -> Seq<Seq<char>>
    decreases existing.len(),
{
    if existing.len() == 0 {
        Seq::empty()
    } else {
        let earlier = stale_targets(existing.drop_last(), new_target);
        if is_stale(existing.last(), new_target) {
            earlier.push(existing.last())
        } else {
            earlier
        }
    }
}

/// `store` after the indexes from `origin` to each of `targets` were removed.
pub open spec fn without_indexes(
    store: StoreView,
    origin: Seq<char>,
    targets: Seq<Seq<char>>,
    relation: Relation,
) -> StoreView
    decreases targets.len(),
{
    if targets.len() == 0 {
        store
    } else {
        without_indexes(store, origin, targets.drop_last(), relation).without_index(
            origin,
            targets.last(),
            relation,
        )
    }
}

/// A sequence of `count` successful removals.
pub open spec fn removals_done(count: nat) -> Seq<Result<(), ErrorView>> {
    Seq::new(count, |i: int| Ok(()))
}

impl StoreView {
    /// The partition after an attempt to create the index from `origin` to
    /// `target`: first the forward edge, then the reciprocal one, each where
    /// there is room for it.
    pub open spec fn with_index(self, origin: Seq<char>, target: Seq<char>, relation: Relation) -> StoreView {
        self.with_edge(relation.forward(origin, target)).with_edge(
            relation.reciprocal(origin, target),
        )
    }

    /// The partition after the index from `origin` to `target` was removed:
    /// every forward edge, and every reciprocal one.
    pub open spec fn without_index(self, origin: Seq<char>, target: Seq<char>, relation: Relation) -> StoreView {
        self.without_edge(relation.forward(origin, target)).without_edge(
            relation.reciprocal(origin, target),
        )
    }

    /// What creating the index from `origin` to `target` reports: the
    /// outcome of adding the forward edge, then that of the reciprocal one.
    pub open spec fn index_outcomes(self, origin: Seq<char>, target: Seq<char>, relation: Relation) -> Seq<
        Result<(), ErrorView>,
    > {
        seq![
            self.edge_outcome(origin),
            self.with_edge(relation.forward(origin, target)).edge_outcome(target),
        ]
    }

    /// What adding an edge from `origin` reports.
    pub open spec fn edge_outcome(self, origin: Seq<char>) -> Result<(), ErrorView> {
        if self.has_edge_room() {
            Ok(())
        } else {
            Err(ErrorView::StoreWrite { address: origin })
        }
    }

    /// The content of the record at `address`, if the partition holds one.
    pub open spec fn record_at(self, address: Seq<char>) -> Option<Seq<char>> {
        if self.entries.contains_key(address) {
            Some(self.entries[address].content)
        } else {
            None
        }
    }

    /// The partition after the links from `origin` were replaced by
    /// `new_target`: nothing changes where it is undefined; else every link
    /// to another address goes, and the index to the value it carries is
    /// created unless a link to it was there.
    pub open spec fn replaced(
        self,
        origin: Seq<char>,
        new_target: MaybeUndefined<Seq<char>>,
        relation: Relation,
    ) -> StoreView {
        let existing = self.linked(origin, relation.link_type, relation.tag);
        let cleared = without_indexes(self, origin, stale_targets(existing, new_target), relation);
        match new_target {
            MaybeUndefined::Undefined => self,
            MaybeUndefined::Unset => cleared,
            MaybeUndefined::Value(wanted) => if existing.contains(wanted) {
                cleared
            } else {
                cleared.with_index(origin, wanted, relation)
            },
        }
    }
}

/// Links `origin` to `target` in both directions: the forward edge first,
/// then the reciprocal one. The two are added independently: where one
/// cannot be added, its outcome says so and the other is added all the
/// same. Reports the two outcomes in that order.
pub fn create_direct_index(
    store: &mut Store,
    origin: &Address,
    target: &Address,
    link_type: &str,
    link_name: &str,
    link_type_reciprocal: &str,
    link_name_reciprocal: &str,
) -> (created: Vec<Result<(), Error>>)
    ensures
        final(store)@ == old(store)@.with_index(
            origin@,
            target@,
            relation(link_type@, link_name@, link_type_reciprocal@, link_name_reciprocal@),
        ),
        step_outcome_views(created@) == old(store)@.index_outcomes(
            origin@,
            target@,
            relation(link_type@, link_name@, link_type_reciprocal@, link_name_reciprocal@),
        ),
{
    let forward = store.create_edge(origin, target, link_type, link_name);
    let reciprocal = store.create_edge(target, origin, link_type_reciprocal, link_name_reciprocal);
    let mut created: Vec<Result<(), Error>> = Vec::new();
    created.push(forward);
    created.push(reciprocal);
    assert(step_outcome_views(created@) =~= old(store)@.index_outcomes(
        origin@,
        target@,
        relation(link_type@, link_name@, link_type_reciprocal@, link_name_reciprocal@),
    ));
    created
}

/// Removes the index from `origin` to `target` in both directions and
/// reports on the two removals, the forward one first.
pub fn wipe_links_from_origin(
    store: &mut Store,
    origin: &Address,
    target: &Address,
    link_type: &str,
    link_name: &str,
    link_type_reciprocal: &str,
    link_name_reciprocal: &str,
) -> (removed: Vec<Result<(), Error>>)
    ensures
        final(store)@ == old(store)@.without_index(
            origin@,
            target@,
            relation(link_type@, link_name@, link_type_reciprocal@, link_name_reciprocal@),
        ),
        step_outcome_views(removed@) == removals_done(2),
{
    store.remove_edge(origin, target, link_type, link_name);
    store.remove_edge(target, origin, link_type_reciprocal, link_name_reciprocal);
    let mut removed: Vec<Result<(), Error>> = Vec::new();
    removed.push(Ok(()));
    removed.push(Ok(()));
    assert(step_outcome_views(removed@) =~= removals_done(2));
    removed
}

/// The addresses linked from `base_address` by edges of exactly the given
/// type and tag, each as an address of the caller's own type `A`.
pub fn get_linked_addresses_as_type<A: From<Address>>(
    store: &Store,
    base_address: &Address,
    link_type: &str,
    link_tag: &str,
) -> (linked: Vec<A>)
    ensures
        linked.len() == store@.linked(base_address@, link_type@, link_tag@).len(),
        A::obeys_from_spec() ==> typed_as(
            linked@,
            store@.linked(base_address@, link_type@, link_tag@),
        ),
{
    let targets = store.get_edges(base_address, link_type, link_tag);
    let mut linked: Vec<A> = Vec::new();
    let mut i: usize = 0;
    while i < targets.len()
        invariant
            i <= targets.len(),
            linked.len() == i,
            address_views(targets@) == store@.linked(base_address@, link_type@, link_tag@),
            A::obeys_from_spec() ==> forall|j: int|
                0 <= j < i ==> is_typed(#[trigger] linked[j], address_views(targets@)[j]),
        decreases targets.len() - i,
    {
        let address = targets[i].clone();
        let ghost witness = address;
        let typed = A::from(address);
        linked.push(typed);
        assert(A::obeys_from_spec() ==> witness@ == address_views(targets@)[i as int] && linked[i as int]
            == A::from_spec(witness));
        i = i + 1;
    }
    linked
}

/// One linked address with the content of the record found there, if any.
pub open spec fn loaded_view(loaded: (Address, Option<String>)) -> (Seq<char>, Option<Seq<char>>) {
    (
        loaded.0@,
        match loaded.1 {
            Some(content) => Some(content@),
            None => None,
        },
    )
}

/// The linked addresses with the records found there, as texts.
pub open spec fn loaded_views(found: Seq<(Address, Option<String>)>) -> Seq<
    (Seq<char>, Option<Seq<char>>),
> {
    Seq::new(found.len(), |i: int| loaded_view(found[i]))
}

/// What following the index of `foreign_key` finds: each linked address,
/// in the order of the links, with the record held there, if any.
pub open spec fn index_query(
    store: StoreView,
    foreign_key: Seq<char>,
    link_type: Seq<char>,
    tag: Seq<char>,
) -> Seq<(Seq<char>, Option<Seq<char>>)> {
    Seq::new(
        store.linked(foreign_key, link_type, tag).len(),
        |i: int|
            (
                store.linked(foreign_key, link_type, tag)[i],
                store.record_at(store.linked(foreign_key, link_type, tag)[i]),
            ),
    )
}

/// Follows the index from `foreign_key` and reads the record at each linked
/// address. A record that cannot be read is reported as `None` beside its
/// address, so that a dangling link can be told from no link.
pub fn query_direct_index_with_foreign_key(
    store: &Store,
    foreign_key: &Address,
    link_type: &str,
    link_tag: &str,
) -> (found: Vec<(Address, Option<String>)>)
    ensures
        loaded_views(found@) == index_query(store@, foreign_key@, link_type@, link_tag@),
{
    let targets = store.get_edges(foreign_key, link_type, link_tag);
    let mut found: Vec<(Address, Option<String>)> = Vec::new();
    let mut i: usize = 0;
    while i < targets.len()
        invariant
            i <= targets.len(),
            found.len() == i,
            address_views(targets@) == store@.linked(foreign_key@, link_type@, link_tag@),
            forall|j: int|
                0 <= j < i ==> #[trigger] loaded_view(found[j]) == (
                    address_views(targets@)[j],
                    store@.record_at(address_views(targets@)[j]),
                ),
        decreases targets.len() - i,
    {
        let record = match store.read_entry(&targets[i]) {
            Ok(content) => Some(content),
            Err(_) => None,
        };
        found.push((targets[i].clone(), record));
        i = i + 1;
    }
    assert(loaded_views(found@) =~= index_query(store@, foreign_key@, link_type@, link_tag@));
    found
}

/// Follows the index that a record of another partition has here: the
/// links of the alias of `foreign_key` under `base_entry_type`.
pub fn query_direct_remote_index_with_foreign_key(
    store: &Store,
    foreign_key: &Address,
    base_entry_type: &str,
    link_type: &str,
    link_tag: &str,
) -> (found: Vec<(Address, Option<String>)>)
    ensures
        loaded_views(found@) == index_query(
            store@,
            key_index_address(base_entry_type@, foreign_key@),
            link_type@,
            link_tag@,
        ),
{
    let alias = determine_key_index_address(base_entry_type, foreign_key);
    query_direct_index_with_foreign_key(store, &alias, link_type, link_tag)
}

/// Replaces the links from `origin` by `new_target`. Where `new_target` is
/// undefined nothing is done. Else every link to an address other than the
/// value of `new_target` is removed in both directions (every link, where
/// `new_target` is unset), and the index to that value is created unless a
/// link to it was there. Reports on the removals, two for each address that
/// was unlinked.
pub fn replace_direct_index(
    store: &mut Store,
    origin: &Address,
    new_target: &MaybeUndefined<Address>,
    link_type: &str,
    link_name: &str,
    link_type_reciprocal: &str,
    link_name_reciprocal: &str,
) -> (removed: Vec<Result<(), Error>>)
    ensures
        final(store)@ == old(store)@.replaced(
            origin@,
            target_view(*new_target),
            relation(link_type@, link_name@, link_type_reciprocal@, link_name_reciprocal@),
        ),
        step_outcome_views(removed@) == removals_done(
            if *new_target is Undefined {
                0
            } else {
                2 * stale_targets(
                    old(store)@.linked(origin@, link_type@, link_name@),
                    target_view(*new_target),
                ).len()
            },
        ),
{
    let mut removed: Vec<Result<(), Error>> = Vec::new();
    assert(step_outcome_views(removed@) =~= removals_done(0));
    if new_target.is_undefined() {
        return removed;
    }
    let ghost kind = relation(link_type@, link_name@, link_type_reciprocal@, link_name_reciprocal@);
    let ghost wanted = target_view(*new_target);
    let existing = store.get_edges(origin, link_type, link_name);
    let ghost links = address_views(existing@);
    let mut already_present = false;
    let mut i: usize = 0;
    assert(links.take(0) =~= Seq::empty());
    while i < existing.len()
        invariant
            i <= existing.len(),
            links == address_views(existing@),
            kind == relation(link_type@, link_name@, link_type_reciprocal@, link_name_reciprocal@),
            wanted == target_view(*new_target),
            !(wanted is Undefined),
            store@ == without_indexes(
                old(store)@,
                origin@,
                stale_targets(links.take(i as int), wanted),
                kind,
            ),
            step_outcome_views(removed@) == removals_done(
                2 * stale_targets(links.take(i as int), wanted).len(),
            ),
            already_present == (wanted is Value && links.take(i as int).contains(wanted->Value_0)),
        decreases existing.len() - i,
    {
        let link = &existing[i];
        assert(links.take(i + 1).drop_last() =~= links.take(i as int));
        assert(links.take(i + 1).last() == link@);
        let stale = match new_target {
            MaybeUndefined::Value(address) => !(link.text == address.text),
            _ => true,
        };
        assert(stale == is_stale(link@, wanted));
        proof {
            if wanted is Value {
                let earlier = links.take(i as int);
                let now = links.take(i + 1);
                if earlier.contains(wanted->Value_0) {
                    let k = choose|k: int| 0 <= k < earlier.len() && earlier[k] == wanted->Value_0;
                    assert(now[k] == wanted->Value_0);
                }
                if now.contains(wanted->Value_0) && link@ != wanted->Value_0 {
                    let k = choose|k: int| 0 <= k < now.len() && now[k] == wanted->Value_0;
                    assert(earlier[k] == wanted->Value_0);
                }
                if link@ == wanted->Value_0 {
                    assert(now[i as int] == wanted->Value_0);
                }
            }
        }
        if stale {
            let ghost before = step_outcome_views(removed@);
            let ghost earlier = stale_targets(links.take(i as int), wanted);
            assert(earlier.push(link@).drop_last() =~= earlier);
            let mut wiped = wipe_links_from_origin(
                store,
                origin,
                link,
                link_type,
                link_name,
                link_type_reciprocal,
                link_name_reciprocal,
            );
            let ghost wiped_views = step_outcome_views(wiped@);
            removed.append(&mut wiped);
            assert(step_outcome_views(removed@) =~= before + wiped_views);
            assert(before + removals_done(2) =~= removals_done(
                2 * stale_targets(links.take(i + 1), wanted).len(),
            ));
        } else {
            already_present = true;
        }
        i = i + 1;
    }
    assert(links.take(i as int) =~= links);
    match new_target {
        MaybeUndefined::Value(address) => {
            if !already_present {
                let _ = create_direct_index(
                    store,
                    origin,
                    address,
                    link_type,
                    link_name,
                    link_type_reciprocal,
                    link_name_reciprocal,
                );
            }
        },
        _ => {},
    }
    removed
}

} // verus!
