//! A partition: the entries it holds, each at the address derived from its
//! content, and the typed, tagged edges between addresses.
use vstd::prelude::*;
use crate::address::{address_of_entry, address_views, entry_address, Address};
use crate::errors::{Error, ErrorView};

verus! {

/// A directed relation from `origin` to `target` of the given type and tag.
pub struct EdgeView {
    pub origin: Seq<char>,
    pub target: Seq<char>,
    pub link_type: Seq<char>,
    pub tag: Seq<char>,
}

/// An entry: its declared type and its serialized content.
pub struct EntryView {
    pub entry_type: Seq<char>,
    pub content: Seq<char>,
}

/// What a partition holds, and what more it can take: entries by address,
/// the number of further entries for which there is room, edges in the
/// order in which they were added, and the number of edges that it can hold
/// at once.
pub struct StoreView {
    pub entries: Map<Seq<char>, EntryView>,
    pub entry_room: nat,
    pub edges: Seq<EdgeView>,
    pub edge_limit: nat,
}

/// The targets of the edges among `edges` that leave `origin` with exactly
/// the given type and tag, in the order of `edges`.
pub open spec fn linked_targets(
    edges: Seq<EdgeView>,
    origin: Seq<char>,
    link_type: Seq<char>,
    tag: Seq<char>,
) -> Seq<Seq<char>>
    decreases edges.len(),
{
    if edges.len() == 0 {
        Seq::empty()
    } else {
        let earlier = linked_targets(edges.drop_last(), origin, link_type, tag);
        let edge = edges.last();
        if edge.origin == origin && edge.link_type == link_type && edge.tag == tag {
            earlier.push(edge.target)
        } else {
            earlier
        }
    }
}

/// `edges` without any occurrence of `edge`, the rest in order.
pub open spec fn edges_without(edges: Seq<EdgeView>, edge: EdgeView) -> Seq<EdgeView>
    decreases edges.len(),
{
    if edges.len() == 0 {
        Seq::empty()
    } else {
        let earlier = edges_without(edges.drop_last(), edge);
        if edges.last() == edge {
            earlier
        } else {
            earlier.push(edges.last())
        }
    }
}

impl StoreView {
    /// A partition that holds nothing and has room for `entries` entries
    /// and `edges` edges.
    pub open spec fn with_room(entries: nat, edges: nat) -> StoreView {
        StoreView {
            entries: Map::empty(),
            entry_room: entries,
            edges: Seq::empty(),
            edge_limit: edges,
        }
    }

    /// A partition that holds nothing and has room for as much as the
    /// machine can count.
    pub open spec fn empty() -> StoreView {
        StoreView::with_room(usize::MAX as nat, usize::MAX as nat)
    }

    /// The addresses linked from `origin` by edges of exactly the given type
    /// and tag, in the order in which the edges were added.
    pub open spec fn linked(self, origin: Seq<char>, link_type: Seq<char>, tag: Seq<char>) -> Seq<
        Seq<char>,
    > {
        linked_targets(self.edges, origin, link_type, tag)
    }

    /// Whether there is room for one more edge.
    pub open spec fn has_edge_room(self) -> bool {
        self.edges.len() < self.edge_limit
    }

    /// The partition after an attempt to add `edge`: it is appended where
    /// there is room for it, else nothing changes.
    pub open spec fn with_edge(self, edge: EdgeView) -> StoreView {
        if self.has_edge_room() {
            StoreView { edges: self.edges.push(edge), ..self }
        } else {
            self
        }
    }

    /// The partition after every occurrence of `edge` was removed.
    pub open spec fn without_edge(self, edge: EdgeView) -> StoreView {
        StoreView { edges: edges_without(self.edges, edge), ..self }
    }

    /// Whether the given entry is held, at its address.
    pub open spec fn holds(self, entry_type: Seq<char>, content: Seq<char>) -> bool {
        let address = entry_address(entry_type, content);
        self.entries.contains_key(address) && self.entries[address] == (EntryView {
            entry_type,
            content,
        })
    }

    /// Whether a commit of the given entry succeeds: the entry is held
    /// already, or its address is free and there is room for an entry.
    pub open spec fn accepts(self, entry_type: Seq<char>, content: Seq<char>) -> bool {
        self.holds(entry_type, content) || (!self.entries.contains_key(
            entry_address(entry_type, content),
        ) && self.entry_room > 0)
    }

    /// The partition after an attempt to commit the given entry: where the
    /// commit succeeds and the entry is new, it is held at its address and
    /// takes up room; else nothing changes.
    pub open spec fn with_entry(self, entry_type: Seq<char>, content: Seq<char>) -> StoreView {
        if self.accepts(entry_type, content) && !self.holds(entry_type, content) {
            StoreView {
                entries: self.entries.insert(
                    entry_address(entry_type, content),
                    EntryView { entry_type, content },
                ),
                entry_room: (self.entry_room - 1) as nat,
                ..self
            }
        } else {
            self
        }
    }

    /// Whether every entry is held at the address derived from its content.
    pub open spec fn content_addressed(self) -> bool {
        forall|address: Seq<char>| #[trigger]
            self.entries.contains_key(address) ==> entry_address(
                self.entries[address].entry_type,
                self.entries[address].content,
            ) == address
    }
}

/// An edge as a partition keeps it.
struct Edge {
    origin: Address,
    target: Address,
    link_type: String,
    tag: String,
}

impl View for Edge {
    type V = EdgeView;

    closed spec fn view(&self) -> EdgeView {
        EdgeView {
            origin: self.origin@,
            target: self.target@,
            link_type: self.link_type@,
            tag: self.tag@,
        }
    }
}

/// An entry as a partition keeps it, beside its address.
struct HeldEntry {
    address: Address,
    entry_type: String,
    content: String,
}

impl View for HeldEntry {
    type V = EntryView;

    closed spec fn view(&self) -> EntryView {
        EntryView { entry_type: self.entry_type@, content: self.content@ }
    }
}

/// The views of `edges`, in the same order.
spec fn edge_views(edges: Seq<Edge>) -> Seq<EdgeView> {
    Seq::new(edges.len(), |i: int| edges[i]@)
}

/// The entries of `held` by address; of two at one address the later counts.
spec fn entries_by_address(held: Seq<HeldEntry>) -> Map<Seq<char>, EntryView>
    decreases held.len(),
{
    if held.len() == 0 {
        Map::empty()
    } else {
        entries_by_address(held.drop_last()).insert(held.last().address@, held.last()@)
    }
}

proof fn lemma_entry_absent(held: Seq<HeldEntry>, address: Seq<char>)
    requires
        forall|j: int| 0 <= j < held.len() ==> held[j].address@ != address,
    ensures
        !entries_by_address(held).contains_key(address),
    decreases held.len(),
{
    if held.len() > 0 {
        lemma_entry_absent(held.drop_last(), address);
    }
}

proof fn lemma_entry_found(held: Seq<HeldEntry>, i: int, address: Seq<char>)
    requires
        0 <= i < held.len(),
        held[i].address@ == address,
        forall|j: int| i < j < held.len() ==> held[j].address@ != address,
    ensures
        entries_by_address(held).contains_key(address),
        entries_by_address(held)[address] == held[i]@,
    decreases held.len(),
{
    if i < held.len() - 1 {
        lemma_entry_found(held.drop_last(), i, address);
    }
}

/// A partition held in memory, with room for a bounded number of entries
/// and of edges.
pub struct Store {
    entries: Vec<HeldEntry>,
    entry_limit: usize,
    edges: Vec<Edge>,
    edge_limit: usize,
}

impl View for Store {
    type V = StoreView;

    closed spec fn view(&self) -> StoreView {
        StoreView {
            entries: entries_by_address(self.entries@),
            entry_room: if self.entries.len() <= self.entry_limit {
                (self.entry_limit - self.entries.len()) as nat
            } else {
                0
            },
            edges: edge_views(self.edges@),
            edge_limit: self.edge_limit as nat,
        }
    }
}

impl Store {
    /// A partition that holds nothing and has room for as much as the
    /// machine can count.
    pub fn new() -> (store: Store)
        ensures
            store@ == StoreView::empty(),
    {
        Store::with_room(usize::MAX, usize::MAX)
    }

    /// A partition that holds nothing and has room for `entry_limit`
    /// entries and `edge_limit` edges.
    pub fn with_room(entry_limit: usize, edge_limit: usize) -> (store: Store)
        ensures
            store@ == StoreView::with_room(entry_limit as nat, edge_limit as nat),
    {
        let store = Store { entries: Vec::new(), entry_limit, edges: Vec::new(), edge_limit };
        assert(store@.edges =~= Seq::empty());
        store
    }

    /// The position of the entry that counts for `address`, if one is held.
    fn position_of(&self, address: &Address) -> (found: Option<usize>)
        ensures
            found is Some <==> self@.entries.contains_key(address@),
            found is Some ==> found->0 < self.entries.len() && self.entries[found->0 as int]@
                == self@.entries[address@] && self.entries[found->0 as int].address@ == address@,
    {
        let mut i: usize = self.entries.len();
        while i > 0
            invariant
                i <= self.entries.len(),
                forall|j: int| i <= j < self.entries.len() ==> self.entries[j].address@ != address@,
            decreases i,
        {
            i = i - 1;
            if self.entries[i].address.text == address.text {
                proof {
                    lemma_entry_found(self.entries@, i as int, address@);
                }
                return Some(i);
            }
        }
        proof {
            lemma_entry_absent(self.entries@, address@);
        }
        None
    }

    /// Commits the entry of type `entry_type` that holds `content` and
    /// returns its address. Committing an entry that is held already changes
    /// nothing and succeeds. The commit fails with [`Error::StoreWrite`],
    /// and changes nothing, where the address is taken by a different entry
    /// or there is no room for a new entry.
    pub fn commit_entry(&mut self, entry_type: &str, content: &str) -> (committed: Result<
        Address,
        Error,
    >)
        ensures
            final(self)@ == old(self)@.with_entry(entry_type@, content@),
            committed is Ok <==> old(self)@.accepts(entry_type@, content@),
            match committed {
                Ok(address) => address@ == entry_address(entry_type@, content@),
                Err(error) => error@ == (ErrorView::StoreWrite {
                    address: entry_address(entry_type@, content@),
                }),
            },
    {
        let address = address_of_entry(entry_type, content);
        let entry_type = entry_type.to_owned();
        let content = content.to_owned();
        match self.position_of(&address) {
            Some(i) => {
                if self.entries[i].entry_type == entry_type && self.entries[i].content == content {
                    Ok(address)
                } else {
                    Err(Error::StoreWrite { address })
                }
            },
            None => {
                if self.entries.len() < self.entry_limit {
                    let ghost before = self.entries@;
                    let held = HeldEntry { address: address.clone(), entry_type, content };
                    self.entries.push(held);
                    assert(self.entries@.drop_last() =~= before);
                    Ok(address)
                } else {
                    Err(Error::StoreWrite { address })
                }
            },
        }
    }

    /// Reads the content of the entry at `address`.
    pub fn read_entry(&self, address: &Address) -> (content: Result<String, Error>)
        ensures
            match content {
                Ok(text) => self@.entries.contains_key(address@) && text@
                    == self@.entries[address@].content,
                Err(error) => !self@.entries.contains_key(address@) && error@
                    == (ErrorView::NotFound { address: address@ }),
            },
    {
        match self.position_of(address) {
            Some(i) => Ok(self.entries[i].content.clone()),
            None => Err(Error::NotFound { address: address.clone() }),
        }
    }

    /// Adds an edge from `origin` to `target`. An edge that is there already
    /// is added once more. Fails with [`Error::StoreWrite`] for `origin`,
    /// and changes nothing, where there is no room for an edge.
    pub fn create_edge(
        &mut self,
        origin: &Address,
        target: &Address,
        link_type: &str,
        tag: &str,
    ) -> (created: Result<(), Error>)
        ensures
            final(self)@ == old(self)@.with_edge(
                EdgeView { origin: origin@, target: target@, link_type: link_type@, tag: tag@ },
            ),
            match created {
                Ok(_) => old(self)@.has_edge_room(),
                Err(error) => !old(self)@.has_edge_room() && error@ == (ErrorView::StoreWrite {
                    address: origin@,
                }),
            },
    {
        if self.edges.len() >= self.edge_limit {
            return Err(Error::StoreWrite { address: origin.clone() });
        }
        let edge = Edge {
            origin: origin.clone(),
            target: target.clone(),
            link_type: link_type.to_owned(),
            tag: tag.to_owned(),
        };
        self.edges.push(edge);
        assert(self@.edges =~= old(self)@.edges.push(edge@));
        Ok(())
    }

    /// The targets of the edges that leave `origin` with exactly the given
    /// type and tag, in the order in which the edges were added.
    pub fn get_edges(&self, origin: &Address, link_type: &str, tag: &str) -> (targets: Vec<
        Address,
    >)
        ensures
            address_views(targets@) == self@.linked(origin@, link_type@, tag@),
    {
        let link_type = link_type.to_owned();
        let tag = tag.to_owned();
        let mut targets: Vec<Address> = Vec::new();
        let mut i: usize = 0;
        assert(self@.edges.take(0) =~= Seq::empty());
        assert(address_views(targets@) =~= Seq::empty());
        while i < self.edges.len()
            invariant
                i <= self.edges.len(),
                address_views(targets@) == linked_targets(
                    self@.edges.take(i as int),
                    origin@,
                    link_type@,
                    tag@,
                ),
            decreases self.edges.len() - i,
        {
            let edge = &self.edges[i];
            let ghost before = address_views(targets@);
            assert(self@.edges.take(i + 1).drop_last() =~= self@.edges.take(i as int));
            if edge.origin.text == origin.text && edge.link_type == link_type && edge.tag == tag {
                targets.push(edge.target.clone());
                assert(address_views(targets@) =~= before.push(edge.target@));
            }
            i = i + 1;
        }
        assert(self@.edges.take(i as int) =~= self@.edges);
        targets
    }

    /// Removes every edge from `origin` to `target` of exactly the given
    /// type and tag. That none is there is no error.
    pub fn remove_edge(&mut self, origin: &Address, target: &Address, link_type: &str, tag: &str)
        ensures
            final(self)@ == old(self)@.without_edge(
                EdgeView { origin: origin@, target: target@, link_type: link_type@, tag: tag@ },
            ),
    {
        let link_type = link_type.to_owned();
        let tag = tag.to_owned();
        let ghost gone = EdgeView {
            origin: origin@,
            target: target@,
            link_type: link_type@,
            tag: tag@,
        };
        let mut kept: Vec<Edge> = Vec::new();
        let mut i: usize = 0;
        assert(self@.edges.take(0) =~= Seq::empty());
        assert(edge_views(kept@) =~= Seq::empty());
        while i < self.edges.len()
            invariant
                i <= self.edges.len(),
                *self == *old(self),
                gone == (EdgeView {
                    origin: origin@,
                    target: target@,
                    link_type: link_type@,
                    tag: tag@,
                }),
                edge_views(kept@) == edges_without(self@.edges.take(i as int), gone),
            decreases self.edges.len() - i,
        {
            let edge = &self.edges[i];
            let ghost before = edge_views(kept@);
            assert(self@.edges.take(i + 1).drop_last() =~= self@.edges.take(i as int));
            let same = edge.origin.text == origin.text && edge.target.text == target.text
                && edge.link_type == link_type && edge.tag == tag;
            if !same {
                let copy = Edge {
                    origin: edge.origin.clone(),
                    target: edge.target.clone(),
                    link_type: edge.link_type.clone(),
                    tag: edge.tag.clone(),
                };
                kept.push(copy);
                assert(edge_views(kept@) =~= before.push(edge@));
            }
            i = i + 1;
        }
        assert(self@.edges.take(i as int) =~= self@.edges);
        self.edges = kept;
    }
}

} // verus!
