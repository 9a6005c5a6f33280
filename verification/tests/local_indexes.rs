use holo_rea::address::Address;
use holo_rea::errors::Error;
use holo_rea::keys::create_key_index;
use holo_rea::local_indexes::{
    create_direct_index, get_linked_addresses_as_type, query_direct_index_with_foreign_key,
    replace_direct_index, wipe_links_from_origin,
};
use holo_rea::maybe_undefined::MaybeUndefined;
use holo_rea::store::Store;

#[derive(Debug, PartialEq)]
struct FulfillmentAddress(Address);

impl From<Address> for FulfillmentAddress {
    fn from(address: Address) -> FulfillmentAddress {
        FulfillmentAddress(address)
    }
}

fn addr(text: &str) -> Address {
    Address::new(text)
}

fn linked(store: &Store, origin: &Address, link_type: &str, tag: &str) -> Vec<Address> {
    store.get_edges(origin, link_type, tag)
}

#[test]
fn direct_index_to_alias_is_found_from_the_source() {
    let mut store = Store::new();
    let source = addr("QmS");
    let alias = create_key_index(&mut store, "vf_commitment_base", &addr("QmT")).unwrap();
    create_direct_index(&mut store, &source, &alias, "fulfills", "fulfilledBy", "fulfilledBy", "fulfills");
    assert_eq!(
        get_linked_addresses_as_type::<FulfillmentAddress>(&store, &source, "fulfills", "fulfilledBy"),
        vec![FulfillmentAddress(alias)]
    );
}

#[test]
fn direct_index_links_both_directions() {
    let mut store = Store::new();
    let a = addr("QmA");
    let b = addr("QmB");
    create_direct_index(&mut store, &a, &b, "contains", "contains", "containedIn", "containedIn");
    assert_eq!(linked(&store, &a, "contains", "contains"), vec![b.clone()]);
    assert_eq!(linked(&store, &b, "containedIn", "containedIn"), vec![a.clone()]);
    assert!(linked(&store, &b, "contains", "contains").is_empty());
    assert!(linked(&store, &a, "containedIn", "containedIn").is_empty());
}

#[test]
fn direct_index_of_an_address_with_itself_under_one_relation() {
    let mut store = Store::new();
    let a = addr("QmA");
    create_direct_index(&mut store, &a, &a, "peer", "peer", "peer", "peer");
    assert_eq!(linked(&store, &a, "peer", "peer"), vec![a.clone(), a.clone()]);
}

#[test]
fn wiping_links_removes_both_directions() {
    let mut store = Store::new();
    let a = addr("QmA");
    let b = addr("QmB");
    let c = addr("QmC");
    create_direct_index(&mut store, &a, &b, "contains", "c", "containedIn", "ci");
    create_direct_index(&mut store, &a, &c, "contains", "c", "containedIn", "ci");
    let removed = wipe_links_from_origin(&mut store, &a, &b, "contains", "c", "containedIn", "ci");
    assert_eq!(removed, vec![Ok(()), Ok(())]);
    assert_eq!(linked(&store, &a, "contains", "c"), vec![c.clone()]);
    assert!(linked(&store, &b, "containedIn", "ci").is_empty());
    assert_eq!(linked(&store, &c, "containedIn", "ci"), vec![a.clone()]);
}

#[test]
fn query_reports_missing_records_as_none() {
    let mut store = Store::new();
    let key = addr("QmKey");
    let held = store.commit_entry("vf_event", "{\"note\":\"a\"}").unwrap();
    let dangling = addr("QmDangling");
    store.create_edge(&key, &held, "fulfilledBy", "fulfills").unwrap();
    store.create_edge(&key, &dangling, "fulfilledBy", "fulfills").unwrap();
    let found = query_direct_index_with_foreign_key(&store, &key, "fulfilledBy", "fulfills");
    assert_eq!(
        found,
        vec![(held, Some("{\"note\":\"a\"}".to_string())), (dangling, None)]
    );
    assert!(query_direct_index_with_foreign_key(&store, &key, "fulfilledBy", "x").is_empty());
}

#[test]
fn replace_with_same_target_issues_no_change() {
    let mut store = Store::new();
    let origin = addr("QmResource");
    let x = addr("QmX");
    create_direct_index(&mut store, &origin, &x, "containedIn", "ci", "contains", "c");
    let removed = replace_direct_index(
        &mut store, &origin, &MaybeUndefined::Value(x.clone()), "containedIn", "ci", "contains", "c",
    );
    assert!(removed.is_empty());
    assert_eq!(linked(&store, &origin, "containedIn", "ci"), vec![x.clone()]);
    assert_eq!(linked(&store, &x, "contains", "c"), vec![origin.clone()]);
}

#[test]
fn replace_with_new_target_erases_others_and_creates_index() {
    let mut store = Store::new();
    let origin = addr("QmResource");
    let x = addr("QmX");
    let y = addr("QmY");
    let z = addr("QmZ");
    create_direct_index(&mut store, &origin, &x, "containedIn", "ci", "contains", "c");
    create_direct_index(&mut store, &origin, &y, "containedIn", "ci", "contains", "c");
    let removed = replace_direct_index(
        &mut store, &origin, &MaybeUndefined::Value(z.clone()), "containedIn", "ci", "contains", "c",
    );
    assert_eq!(removed, vec![Ok(()), Ok(()), Ok(()), Ok(())]);
    assert_eq!(linked(&store, &origin, "containedIn", "ci"), vec![z.clone()]);
    assert_eq!(linked(&store, &z, "contains", "c"), vec![origin.clone()]);
    assert!(linked(&store, &x, "contains", "c").is_empty());
    assert!(linked(&store, &y, "contains", "c").is_empty());
}

#[test]
fn replace_keeps_present_target_and_erases_the_rest() {
    let mut store = Store::new();
    let origin = addr("QmResource");
    let x = addr("QmX");
    let y = addr("QmY");
    create_direct_index(&mut store, &origin, &x, "containedIn", "ci", "contains", "c");
    create_direct_index(&mut store, &origin, &y, "containedIn", "ci", "contains", "c");
    let removed = replace_direct_index(
        &mut store, &origin, &MaybeUndefined::Value(y.clone()), "containedIn", "ci", "contains", "c",
    );
    assert_eq!(removed, vec![Ok(()), Ok(())]);
    assert_eq!(linked(&store, &origin, "containedIn", "ci"), vec![y.clone()]);
    assert_eq!(linked(&store, &y, "contains", "c"), vec![origin.clone()]);
    assert!(linked(&store, &x, "contains", "c").is_empty());
}

#[test]
fn replace_with_unset_erases_every_link() {
    let mut store = Store::new();
    let origin = addr("QmResource");
    let x = addr("QmX");
    create_direct_index(&mut store, &origin, &x, "containedIn", "ci", "contains", "c");
    let removed = replace_direct_index(
        &mut store, &origin, &MaybeUndefined::Unset, "containedIn", "ci", "contains", "c",
    );
    assert_eq!(removed, vec![Ok(()), Ok(())]);
    assert!(linked(&store, &origin, "containedIn", "ci").is_empty());
    assert!(linked(&store, &x, "contains", "c").is_empty());
}

#[test]
fn replace_with_undefined_is_a_no_operation() {
    let mut store = Store::new();
    let origin = addr("QmResource");
    let x = addr("QmX");
    create_direct_index(&mut store, &origin, &x, "containedIn", "ci", "contains", "c");
    let removed = replace_direct_index(
        &mut store, &origin, &MaybeUndefined::Undefined, "containedIn", "ci", "contains", "c",
    );
    assert!(removed.is_empty());
    assert_eq!(linked(&store, &origin, "containedIn", "ci"), vec![x]);
}

#[test]
fn replace_on_unlinked_origin_creates_the_index() {
    let mut store = Store::new();
    let origin = addr("QmResource");
    let x = addr("QmX");
    let removed = replace_direct_index(
        &mut store, &origin, &MaybeUndefined::Value(x.clone()), "containedIn", "ci", "contains", "c",
    );
    assert!(removed.is_empty());
    assert_eq!(linked(&store, &origin, "containedIn", "ci"), vec![x.clone()]);
    assert_eq!(linked(&store, &x, "contains", "c"), vec![origin]);
}

#[test]
fn maybe_undefined_tells_its_three_states_apart() {
    let value: MaybeUndefined<u8> = MaybeUndefined::Value(3);
    let unset: MaybeUndefined<u8> = MaybeUndefined::Unset;
    let undefined: MaybeUndefined<u8> = MaybeUndefined::Undefined;
    assert!(value.is_some() && !value.is_undefined());
    assert!(!unset.is_some() && !unset.is_undefined());
    assert!(!undefined.is_some() && undefined.is_undefined());
    assert_eq!(value.to_option(), Some(3));
    assert_eq!(unset.to_option(), None);
    assert_eq!(undefined.to_option(), None);
}

#[test]
fn direct_index_reports_both_edges() {
    let mut store = Store::new();
    let created = create_direct_index(
        &mut store, &addr("QmA"), &addr("QmB"), "contains", "c", "containedIn", "ci",
    );
    assert_eq!(created, vec![Ok(()), Ok(())]);
}

#[test]
fn direct_index_keeps_first_edge_when_second_fails() {
    let mut store = Store::with_room(0, 1);
    let a = addr("QmA");
    let b = addr("QmB");
    let created = create_direct_index(&mut store, &a, &b, "contains", "c", "containedIn", "ci");
    assert_eq!(created, vec![Ok(()), Err(Error::StoreWrite { address: b.clone() })]);
    assert_eq!(linked(&store, &a, "contains", "c"), vec![b.clone()]);
    assert!(linked(&store, &b, "containedIn", "ci").is_empty());
}

#[test]
fn direct_index_in_full_partition_adds_nothing() {
    let mut store = Store::with_room(0, 0);
    let a = addr("QmA");
    let b = addr("QmB");
    let created = create_direct_index(&mut store, &a, &b, "contains", "c", "containedIn", "ci");
    assert_eq!(
        created,
        vec![
            Err(Error::StoreWrite { address: a.clone() }),
            Err(Error::StoreWrite { address: b.clone() })
        ]
    );
    assert!(linked(&store, &a, "contains", "c").is_empty());
}
