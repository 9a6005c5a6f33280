//! The stored form of a proposal, and how requests create and update it.
use vstd::prelude::*;
use crate::maybe_undefined::MaybeUndefined;
use crate::record_interface::Updateable;

verus! {

/// A point in time, written out as text.
pub type Timestamp = String;

/// A proposal as it is stored.
#[derive(Debug)]
pub struct Entry {
    pub name: Option<String>,
    pub has_beginning: Option<Timestamp>,
    pub has_end: Option<Timestamp>,
    pub unit_based: Option<bool>,
    pub created: Option<Timestamp>,
    pub note: Option<String>,
    pub in_scope_of: Option<Vec<String>>,
}

/// The fields that a request to create a proposal may carry.
#[derive(Debug)]
pub struct CreateRequest {
    pub name: MaybeUndefined<String>,
    pub has_beginning: MaybeUndefined<Timestamp>,
    pub has_end: MaybeUndefined<Timestamp>,
    pub unit_based: MaybeUndefined<bool>,
    pub created: MaybeUndefined<Timestamp>,
    pub note: MaybeUndefined<String>,
    pub in_scope_of: MaybeUndefined<Vec<String>>,
}

/// The fields that a request to update a proposal may carry. The time of
/// creation is not among them.
#[derive(Debug)]
pub struct UpdateRequest {
    pub name: MaybeUndefined<String>,
    pub has_beginning: MaybeUndefined<Timestamp>,
    pub has_end: MaybeUndefined<Timestamp>,
    pub unit_based: MaybeUndefined<bool>,
    pub note: MaybeUndefined<String>,
    pub in_scope_of: MaybeUndefined<Vec<String>>,
}

/// The value that a field carries, if it carries one.
pub open spec fn given<T>(field: MaybeUndefined<T>) -> Option<T> {
    match field {
        MaybeUndefined::Value(value) => Some(value),
        _ => None,
    }
}

/// A stored field after an update that replaces it only by a value: an
/// update that carries none keeps what was stored.
pub open spec fn kept_unless_given<T>(stored: Option<T>, update: MaybeUndefined<T>) -> Option<T> {
    match update {
        MaybeUndefined::Value(value) => Some(value),
        _ => stored,
    }
}

/// A stored field after an update: kept where the update leaves the field
/// out, emptied where the update unsets it, else replaced by the value.
pub open spec fn kept_if_undefined<T>(stored: Option<T>, update: MaybeUndefined<T>) -> Option<T> {
    match update {
        MaybeUndefined::Undefined => stored,
        MaybeUndefined::Unset => None,
        MaybeUndefined::Value(value) => Some(value),
    }
}

/// A stored text, as a sequence of characters.
pub open spec fn text_view(text: Option<String>) -> Option<Seq<char>> {
    match text {
        Some(text) => Some(text@),
        None => None,
    }
}

/// The text of an update, as a sequence of characters.
pub open spec fn maybe_text_view(text: MaybeUndefined<String>) -> MaybeUndefined<Seq<char>> {
    match text {
        MaybeUndefined::Unset => MaybeUndefined::Unset,
        MaybeUndefined::Value(text) => MaybeUndefined::Value(text@),
        MaybeUndefined::Undefined => MaybeUndefined::Undefined,
    }
}

/// Texts as sequences of characters, in the same order.
pub open spec fn text_views(texts: Seq<String>) -> Seq<Seq<char>> {
    Seq::new(texts.len(), |i: int| texts[i]@)
}

/// Stored texts, as sequences of characters.
pub open spec fn texts_view(texts: Option<Vec<String>>) -> Option<Seq<Seq<char>>> {
    match texts {
        Some(texts) => Some(text_views(texts@)),
        None => None,
    }
}

/// The texts of an update, as sequences of characters.
pub open spec fn maybe_texts_view(texts: MaybeUndefined<Vec<String>>) -> MaybeUndefined<
    Seq<Seq<char>>,
> {
    match texts {
        MaybeUndefined::Unset => MaybeUndefined::Unset,
        MaybeUndefined::Value(texts) => MaybeUndefined::Value(text_views(texts@)),
        MaybeUndefined::Undefined => MaybeUndefined::Undefined,
    }
}

fn copy_text(text: &Option<String>) -> (copy: Option<String>)
    ensures
        text_view(copy) == text_view(*text),
{
    match text {
        Some(text) => Some(text.clone()),
        None => None,
    }
}

fn copy_texts(texts: &Vec<String>) -> (copy: Vec<String>)
    ensures
        text_views(copy@) == text_views(texts@),
{
    let mut copy: Vec<String> = Vec::new();
    let mut i: usize = 0;
    while i < texts.len()
        invariant
            i <= texts.len(),
            copy.len() == i,
            forall|j: int| 0 <= j < i ==> copy[j]@ == texts[j]@,
        decreases texts.len() - i,
    {
        copy.push(texts[i].clone());
        i = i + 1;
    }
    assert(text_views(copy@) =~= text_views(texts@));
    copy
}

fn merge_text(stored: &Option<String>, update: &MaybeUndefined<String>) -> (merged: Option<String>)
    ensures
        text_view(merged) == kept_if_undefined(text_view(*stored), maybe_text_view(*update)),
{
    match update {
        MaybeUndefined::Undefined => copy_text(stored),
        MaybeUndefined::Unset => None,
        MaybeUndefined::Value(text) => Some(text.clone()),
    }
}

impl Clone for Entry {
    fn clone(&self) -> (copy: Entry)
        ensures
            text_view(copy.name) == text_view(self.name),
            text_view(copy.has_beginning) == text_view(self.has_beginning),
            text_view(copy.has_end) == text_view(self.has_end),
            copy.unit_based == self.unit_based,
            text_view(copy.created) == text_view(self.created),
            text_view(copy.note) == text_view(self.note),
            texts_view(copy.in_scope_of) == texts_view(self.in_scope_of),
    {
        Entry {
            name: copy_text(&self.name),
            has_beginning: copy_text(&self.has_beginning),
            has_end: copy_text(&self.has_end),
            unit_based: self.unit_based,
            created: copy_text(&self.created),
            note: copy_text(&self.note),
            in_scope_of: match &self.in_scope_of {
                Some(scopes) => Some(copy_texts(scopes)),
                None => None,
            },
        }
    }
}

impl From<CreateRequest> for Entry {
    /// Picks the fields of the request that are stored.
    fn from(e: CreateRequest) -> (entry: Entry) {
        Entry {
            name: e.name.to_option(),
            has_beginning: e.has_beginning.to_option(),
            has_end: e.has_end.to_option(),
            unit_based: e.unit_based.to_option(),
            created: e.created.to_option(),
            note: e.note.to_option(),
            in_scope_of: e.in_scope_of.to_option(),
        }
    }
}

impl vstd::std_specs::convert::FromSpecImpl<CreateRequest> for Entry {
    open spec fn obeys_from_spec() -> bool {
        true
    }

    /// Each field holds the value that the request gives it, and nothing
    /// where the request gives none.
    open spec fn from_spec(e: CreateRequest) -> Entry {
        Entry {
            name: given(e.name),
            has_beginning: given(e.has_beginning),
            has_end: given(e.has_end),
            unit_based: given(e.unit_based),
            created: given(e.created),
            note: given(e.note),
            in_scope_of: given(e.in_scope_of),
        }
    }
}

impl Updateable<UpdateRequest> for Entry {
    /// Merges the fields of the update into the stored proposal. The name
    /// changes only where the update gives one. The beginning, the end, the
    /// unit basis, the note and the scope are kept where the update leaves
    /// them out, emptied where it unsets them, and replaced where it gives
    /// a value. The time of creation is kept.
    fn update_with(&self, e: &UpdateRequest) -> (updated: Entry)
        ensures
            text_view(updated.name) == kept_unless_given(
                text_view(self.name),
                maybe_text_view(e.name),
            ),
            text_view(updated.has_beginning) == kept_if_undefined(
                text_view(self.has_beginning),
                maybe_text_view(e.has_beginning),
            ),
            text_view(updated.has_end) == kept_if_undefined(
                text_view(self.has_end),
                maybe_text_view(e.has_end),
            ),
            updated.unit_based == kept_if_undefined(self.unit_based, e.unit_based),
            text_view(updated.created) == text_view(self.created),
            text_view(updated.note) == kept_if_undefined(
                text_view(self.note),
                maybe_text_view(e.note),
            ),
            texts_view(updated.in_scope_of) == kept_if_undefined(
                texts_view(self.in_scope_of),
                maybe_texts_view(e.in_scope_of),
            ),
    {
        Entry {
            name: match &e.name {
                MaybeUndefined::Value(name) => Some(name.clone()),
                _ => copy_text(&self.name),
            },
            has_beginning: merge_text(&self.has_beginning, &e.has_beginning),
            has_end: merge_text(&self.has_end, &e.has_end),
            unit_based: match &e.unit_based {
                MaybeUndefined::Undefined => self.unit_based,
                MaybeUndefined::Unset => None,
                MaybeUndefined::Value(flag) => Some(*flag),
            },
            created: copy_text(&self.created),
            note: merge_text(&self.note, &e.note),
            in_scope_of: match &e.in_scope_of {
                MaybeUndefined::Undefined => match &self.in_scope_of {
                    Some(scopes) => Some(copy_texts(scopes)),
                    None => None,
                },
                MaybeUndefined::Unset => None,
                MaybeUndefined::Value(scopes) => Some(copy_texts(scopes)),
            },
        }
    }
}

} // verus!
