//! Key indexes: entries that hold nothing but the address of another entry,
//! and so give that entry an alias which does not depend on its content.
use vstd::prelude::*;
use vstd::std_specs::convert::FromSpec;
use crate::address::{address_of_entry, entry_address, Address};
use crate::errors::{Error, ErrorView};
use crate::store::{Store, StoreView};
use crate::type_aliases::is_typed;

verus! {

/// The address of the key index of type `entry_type` for `base_address`.
pub open spec fn key_index_address(entry_type: Seq<char>, base_address: Seq<char>) -> Seq<char> {
    entry_address(entry_type, base_address)
}

impl StoreView {
    /// The address that the key index at `key_address` stands for, if the
    /// partition holds an entry there.
    pub open spec fn key_index_target(self, key_address: Seq<char>) -> Option<Seq<char>> {
        if self.entries.contains_key(key_address) {
            Some(self.entries[key_address].content)
        } else {
            None
        }
    }

    /// The partition after an attempt to commit the key index of type
    /// `entry_type` for `base_address`.
    pub open spec fn with_key_index(self, entry_type: Seq<char>, base_address: Seq<char>) -> StoreView {
        self.with_entry(entry_type, base_address)
    }
}

/// Computes the address of the key index of type `base_entry_type` for
/// `base_address`, without reading any partition.
pub fn determine_key_index_address(base_entry_type: &str, base_address: &Address) -> (alias: Address)
    ensures
        alias@ == key_index_address(base_entry_type@, base_address@),
{
    address_of_entry(base_entry_type, base_address.as_str())
}

/// Commits the key index of type `base_entry_type` for `referenced_address`
/// and returns its address, the alias. A key index that is held already is
/// left as it is. The commit fails with [`Error::StoreWrite`], and changes
/// nothing, where the alias is taken by a different entry or the partition
/// has no room for a new entry.
pub fn create_key_index(
    store: &mut Store,
    base_entry_type: &str,
    referenced_address: &Address,
) -> (created: Result<Address, Error>)
    ensures
        final(store)@ == old(store)@.with_key_index(base_entry_type@, referenced_address@),
        created is Ok <==> old(store)@.accepts(base_entry_type@, referenced_address@),
        match created {
            Ok(alias) => alias@ == key_index_address(base_entry_type@, referenced_address@),
            Err(error) => error@ == (ErrorView::StoreWrite {
                address: key_index_address(base_entry_type@, referenced_address@),
            }),
        },
{
    store.commit_entry(base_entry_type, referenced_address.as_str())
}

/// Reads the address that the key index at `key_address` stands for. Fails
/// with [`Error::NotFound`] where the partition holds no entry there.
pub fn get_key_index_address(store: &Store, key_address: &Address) -> (target: Result<
    Address,
    Error,
>)
    ensures
        match target {
            Ok(address) => store@.key_index_target(key_address@) == Some(address@),
            Err(error) => store@.key_index_target(key_address@) is None && error@
                == (ErrorView::NotFound { address: key_address@ }),
        },
{
    match store.read_entry(key_address) {
        Ok(content) => Ok(Address { text: content }),
        Err(error) => Err(error),
    }
}

/// Reads the address that the key index at `key_address` stands for, as an
/// address of the caller's own type `A`.
pub fn get_key_index_address_as_type<A: From<Address>>(store: &Store, key_address: &Address) -> (target:
    Result<A, Error>)
    ensures
        target is Ok <==> store@.key_index_target(key_address@) is Some,
        match target {
            Ok(typed) => A::obeys_from_spec() ==> is_typed(
                typed,
                store@.key_index_target(key_address@)->0,
            ),
            Err(error) => error@ == (ErrorView::NotFound { address: key_address@ }),
        },
{
    match get_key_index_address(store, key_address) {
        Ok(address) => Ok(A::from(address)),
        Err(error) => Err(error),
    }
}

} // verus!
