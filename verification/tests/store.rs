use holo_rea::address::{address_of_entry, Address};
use holo_rea::errors::Error;
use holo_rea::keys::{
    create_key_index, determine_key_index_address, get_key_index_address,
    get_key_index_address_as_type,
};
use holo_rea::store::Store;

#[derive(Debug, PartialEq)]
struct CommitmentAddress(Address);

impl From<Address> for CommitmentAddress {
    fn from(address: Address) -> CommitmentAddress {
        CommitmentAddress(address)
    }
}

#[test]
fn address_of_entry_is_base58_sha256_multihash_of_json_pair() {
    assert_eq!(
        address_of_entry("foo_base", "QmT").as_str(),
        "Qmbkrux9cokmLDuWzNcvx8b9RVYEyXsdhkq1nxb8CyxKwx"
    );
    assert_eq!(
        address_of_entry("vf_commitment_base", "QmTargetAddress").as_str(),
        "QmbzpJ6gQfpCsBrPz3RwQFvvvWHWssY66KprQnfKbKUjX9"
    );
    assert_eq!(address_of_entry("", "").as_str(), "QmStPqQn4f3ph3cFzoXZvw5CjZiW7cHiseSVWrLXCga348");
}

#[test]
fn address_of_entry_escapes_content_as_json() {
    assert_eq!(
        address_of_entry("a", "b\"c\\d\n").as_str(),
        "QmdtWLTjB5xr7wfeZAbEgCdd2tS7987RPvwSVVHGukr2jz"
    );
    assert_ne!(address_of_entry("a\",\"b", "c"), address_of_entry("a", "b\",\"c"));
}

#[test]
fn address_depends_on_type_and_content() {
    let address = address_of_entry("foo_base", "QmT");
    assert_ne!(address, Address::new("QmT"));
    assert_ne!(address, address_of_entry("foo_base", "QmU"));
    assert_ne!(address, address_of_entry("bar_base", "QmT"));
    assert_eq!(address, address_of_entry("foo_base", "QmT"));
}

#[test]
fn address_keeps_its_text() {
    let address = Address::new("QmSomewhere");
    assert_eq!(address.as_str(), "QmSomewhere");
    assert_eq!(address.clone(), address);
    assert_ne!(address, Address::new("QmElsewhere"));
}

#[test]
fn alias_is_reproducible_without_reading_the_store() {
    let mut store = Store::new();
    let target = Address::new("QmT");
    let alias = create_key_index(&mut store, "foo_base", &target).unwrap();
    assert_eq!(alias, determine_key_index_address("foo_base", &target));
    assert_eq!(alias.as_str(), "Qmbkrux9cokmLDuWzNcvx8b9RVYEyXsdhkq1nxb8CyxKwx");
    assert_eq!(get_key_index_address(&store, &alias).unwrap(), target);
}

#[test]
fn determining_an_alias_twice_gives_the_same_address() {
    let target = Address::new("QmTargetAddress");
    let first = determine_key_index_address("vf_commitment_base", &target);
    let second = determine_key_index_address("vf_commitment_base", &target);
    assert_eq!(first, second);
    assert_ne!(first, determine_key_index_address("vf_event_base", &target));
}

#[test]
fn creating_an_alias_twice_gives_the_same_address_and_target() {
    let mut store = Store::new();
    let target = Address::new("QmTargetAddress");
    let other = Address::new("QmOtherTarget");
    let first = create_key_index(&mut store, "vf_commitment_base", &target).unwrap();
    let other_alias = create_key_index(&mut store, "vf_commitment_base", &other).unwrap();
    let second = create_key_index(&mut store, "vf_commitment_base", &target).unwrap();
    assert_eq!(first, second);
    assert_ne!(first, other_alias);
    assert_eq!(get_key_index_address(&store, &first), Ok(target));
    assert_eq!(get_key_index_address(&store, &other_alias), Ok(other));
}

#[test]
fn unknown_alias_is_not_found() {
    let mut store = Store::new();
    let alias = Address::new("QmNowhere");
    assert_eq!(
        get_key_index_address(&store, &alias),
        Err(Error::NotFound { address: Address::new("QmNowhere") })
    );
    create_key_index(&mut store, "foo_base", &Address::new("QmT")).unwrap();
    assert_eq!(
        get_key_index_address(&store, &alias),
        Err(Error::NotFound { address: Address::new("QmNowhere") })
    );
    assert_eq!(
        get_key_index_address_as_type::<CommitmentAddress>(&store, &alias),
        Err(Error::NotFound { address: Address::new("QmNowhere") })
    );
}

#[test]
fn alias_is_read_as_typed_address() {
    let mut store = Store::new();
    let target = Address::new("QmCommitment");
    let alias = create_key_index(&mut store, "vf_commitment_base", &target).unwrap();
    assert_eq!(
        get_key_index_address_as_type::<CommitmentAddress>(&store, &alias),
        Ok(CommitmentAddress(target))
    );
}

#[test]
fn committed_entry_is_read_back_at_its_address() {
    let mut store = Store::new();
    let address = store.commit_entry("vf_note", "{\"text\":\"hello\"}").unwrap();
    assert_eq!(address, address_of_entry("vf_note", "{\"text\":\"hello\"}"));
    assert_eq!(store.read_entry(&address), Ok("{\"text\":\"hello\"}".to_string()));
    let again = store.commit_entry("vf_note", "{\"text\":\"hello\"}").unwrap();
    assert_eq!(again, address);
    assert_eq!(
        store.read_entry(&Address::new("QmMissing")),
        Err(Error::NotFound { address: Address::new("QmMissing") })
    );
}

#[test]
fn edges_are_found_by_exact_type_and_tag_in_insertion_order() {
    let mut store = Store::new();
    let a = Address::new("QmA");
    let b = Address::new("QmB");
    let c = Address::new("QmC");
    store.create_edge(&a, &b, "fulfills", "fulfilledBy").unwrap();
    store.create_edge(&a, &c, "fulfills", "fulfilledBy").unwrap();
    store.create_edge(&a, &c, "fulfills", "other").unwrap();
    store.create_edge(&a, &c, "satisfies", "fulfilledBy").unwrap();
    store.create_edge(&b, &c, "fulfills", "fulfilledBy").unwrap();
    assert_eq!(store.get_edges(&a, "fulfills", "fulfilledBy"), vec![b.clone(), c.clone()]);
    assert_eq!(store.get_edges(&a, "fulfills", "other"), vec![c.clone()]);
    assert_eq!(store.get_edges(&a, "satisfies", "fulfilledBy"), vec![c.clone()]);
    assert_eq!(store.get_edges(&b, "fulfills", "fulfilledBy"), vec![c.clone()]);
    assert!(store.get_edges(&a, "fulfills", "").is_empty());
    assert!(store.get_edges(&a, "fulfill", "fulfilledBy").is_empty());
    assert!(store.get_edges(&a, "fulfills", "fulfilledBy2").is_empty());
    assert!(store.get_edges(&c, "fulfills", "fulfilledBy").is_empty());
}

#[test]
fn duplicate_edges_are_kept() {
    let mut store = Store::new();
    let a = Address::new("QmA");
    let b = Address::new("QmB");
    store.create_edge(&a, &b, "fulfills", "fulfilledBy").unwrap();
    store.create_edge(&a, &b, "fulfills", "fulfilledBy").unwrap();
    assert_eq!(store.get_edges(&a, "fulfills", "fulfilledBy"), vec![b.clone(), b.clone()]);
}

#[test]
fn removing_an_edge_removes_every_copy_and_nothing_else() {
    let mut store = Store::new();
    let a = Address::new("QmA");
    let b = Address::new("QmB");
    let c = Address::new("QmC");
    store.create_edge(&a, &b, "fulfills", "fulfilledBy").unwrap();
    store.create_edge(&a, &c, "fulfills", "fulfilledBy").unwrap();
    store.create_edge(&a, &b, "fulfills", "fulfilledBy").unwrap();
    store.create_edge(&a, &b, "fulfills", "other").unwrap();
    store.create_edge(&b, &a, "fulfills", "fulfilledBy").unwrap();
    store.remove_edge(&a, &b, "fulfills", "fulfilledBy");
    assert_eq!(store.get_edges(&a, "fulfills", "fulfilledBy"), vec![c.clone()]);
    assert_eq!(store.get_edges(&a, "fulfills", "other"), vec![b.clone()]);
    assert_eq!(store.get_edges(&b, "fulfills", "fulfilledBy"), vec![a.clone()]);
}

#[test]
fn removing_an_absent_edge_is_no_error() {
    let mut store = Store::new();
    let a = Address::new("QmA");
    let b = Address::new("QmB");
    store.remove_edge(&a, &b, "fulfills", "fulfilledBy");
    store.create_edge(&a, &b, "fulfills", "fulfilledBy").unwrap();
    store.remove_edge(&b, &a, "fulfills", "fulfilledBy");
    store.remove_edge(&a, &b, "fulfills", "fulfilled");
    assert_eq!(store.get_edges(&a, "fulfills", "fulfilledBy"), vec![b]);
}

#[test]
fn full_partition_refuses_new_entries_and_keeps_held_ones() {
    let mut store = Store::with_room(1, 10);
    let first = store.commit_entry("vf_note", "one").unwrap();
    assert_eq!(
        store.commit_entry("vf_note", "two"),
        Err(Error::StoreWrite { address: address_of_entry("vf_note", "two") })
    );
    assert_eq!(store.commit_entry("vf_note", "one"), Ok(first.clone()));
    assert_eq!(store.read_entry(&first), Ok("one".to_string()));
    assert_eq!(
        store.read_entry(&address_of_entry("vf_note", "two")),
        Err(Error::NotFound { address: address_of_entry("vf_note", "two") })
    );
}

#[test]
fn partition_without_room_refuses_every_alias() {
    let mut store = Store::with_room(0, 0);
    let target = Address::new("QmT");
    assert_eq!(
        create_key_index(&mut store, "foo_base", &target),
        Err(Error::StoreWrite { address: determine_key_index_address("foo_base", &target) })
    );
    assert_eq!(
        get_key_index_address(&store, &determine_key_index_address("foo_base", &target)),
        Err(Error::NotFound { address: determine_key_index_address("foo_base", &target) })
    );
}

#[test]
fn full_partition_refuses_edges_until_one_is_removed() {
    let mut store = Store::with_room(10, 1);
    let a = Address::new("QmA");
    let b = Address::new("QmB");
    let c = Address::new("QmC");
    assert_eq!(store.create_edge(&a, &b, "fulfills", "fulfilledBy"), Ok(()));
    assert_eq!(
        store.create_edge(&a, &c, "fulfills", "fulfilledBy"),
        Err(Error::StoreWrite { address: a.clone() })
    );
    assert_eq!(store.get_edges(&a, "fulfills", "fulfilledBy"), vec![b.clone()]);
    store.remove_edge(&a, &b, "fulfills", "fulfilledBy");
    assert_eq!(store.create_edge(&a, &c, "fulfills", "fulfilledBy"), Ok(()));
    assert_eq!(store.get_edges(&a, "fulfills", "fulfilledBy"), vec![c]);
}
