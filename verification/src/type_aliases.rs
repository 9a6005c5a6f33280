//! Addresses that say what kind of record they lead to.
use vstd::prelude::*;
use vstd::std_specs::convert::FromSpec;
use crate::address::Address;

verus! {

/// Whether `typed` is the address written as `address`, in the caller's own
/// type `A`.
pub open spec fn is_typed<A: From<Address>>(typed: A, address: Seq<char>) -> bool {
    exists|raw: Address| raw@ == address && typed == A::from_spec(raw)
}

/// Whether `typed` holds `addresses`, one for one and in the same order,
/// in the caller's own type `A`.
pub open spec fn typed_as<A: From<Address>>(typed: Seq<A>, addresses: Seq<Seq<char>>) -> bool {
    &&& typed.len() == addresses.len()
    &&& forall|i: int| 0 <= i < typed.len() ==> is_typed(#[trigger] typed[i], addresses[i])
}

/// The address of an economic resource.
#[derive(Debug)]
pub struct ResourceAddress {
    pub address: Address,
}

impl View for ResourceAddress {
    type V = Seq<char>;

    open spec fn view(&self) -> Seq<char> {
        self.address@
    }
}

impl From<Address> for ResourceAddress {
    fn from(address: Address) -> (typed: ResourceAddress) {
        ResourceAddress { address }
    }
}

impl vstd::std_specs::convert::FromSpecImpl<Address> for ResourceAddress {
    open spec fn obeys_from_spec() -> bool {
        true
    }

    open spec fn from_spec(address: Address) -> ResourceAddress {
        ResourceAddress { address }
    }
}

impl Clone for ResourceAddress {
    fn clone(&self) -> (copy: ResourceAddress)
        ensures
            copy@ == self@,
    {
        ResourceAddress { address: self.address.clone() }
    }
}

impl PartialEq for ResourceAddress {
    fn eq(&self, other: &ResourceAddress) -> (same: bool) {
        self.address.text == other.address.text
    }
}

impl Eq for ResourceAddress {}

impl vstd::std_specs::cmp::PartialEqSpecImpl for ResourceAddress {
    open spec fn obeys_eq_spec() -> bool {
        true
    }

    open spec fn eq_spec(&self, other: &ResourceAddress) -> bool {
        self@ == other@
    }
}

/// The address of an economic event.
#[derive(Debug)]
pub struct EventAddress {
    pub address: Address,
}

impl View for EventAddress {
    type V = Seq<char>;

    open spec fn view(&self) -> Seq<char> {
        self.address@
    }
}

impl From<Address> for EventAddress {
    fn from(address: Address) -> (typed: EventAddress) {
        EventAddress { address }
    }
}

impl vstd::std_specs::convert::FromSpecImpl<Address> for EventAddress {
    open spec fn obeys_from_spec() -> bool {
        true
    }

    open spec fn from_spec(address: Address) -> EventAddress {
        EventAddress { address }
    }
}

impl Clone for EventAddress {
    fn clone(&self) -> (copy: EventAddress)
        ensures
            copy@ == self@,
    {
        EventAddress { address: self.address.clone() }
    }
}

impl PartialEq for EventAddress {
    fn eq(&self, other: &EventAddress) -> (same: bool) {
        self.address.text == other.address.text
    }
}

impl Eq for EventAddress {}

impl vstd::std_specs::cmp::PartialEqSpecImpl for EventAddress {
    open spec fn obeys_eq_spec() -> bool {
        true
    }

    open spec fn eq_spec(&self, other: &EventAddress) -> bool {
        self@ == other@
    }
}

/// The texts of resource addresses, in the same order.
pub open spec fn resource_address_views(addresses: Seq<ResourceAddress>) -> Seq<Seq<char>> {
    Seq::new(addresses.len(), |i: int| addresses[i]@)
}

/// The texts of event addresses, in the same order.
pub open spec fn event_address_views(addresses: Seq<EventAddress>) -> Seq<Seq<char>> {
    Seq::new(addresses.len(), |i: int| addresses[i]@)
}

/// Resource addresses that hold `addresses` read as those texts.
pub proof fn typed_resources_read_as(typed: Seq<ResourceAddress>, addresses: Seq<Seq<char>>)
    requires
        typed_as(typed, addresses),
    ensures
        resource_address_views(typed) == addresses,
{
    assert forall|i: int| 0 <= i < typed.len() implies typed[i]@ == addresses[i] by {
        assert(is_typed(typed[i], addresses[i]));
    }
    assert(resource_address_views(typed) =~= addresses);
}

/// Event addresses that hold `addresses` read as those texts.
pub proof fn typed_events_read_as(typed: Seq<EventAddress>, addresses: Seq<Seq<char>>)
    requires
        typed_as(typed, addresses),
    ensures
        event_address_views(typed) == addresses,
{
    assert forall|i: int| 0 <= i < typed.len() implies typed[i]@ == addresses[i] by {
        assert(is_typed(typed[i], addresses[i]));
    }
    assert(event_address_views(typed) =~= addresses);
}

} // verus!
