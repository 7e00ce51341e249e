//! The life of a note: creation, reading and deletion.
//!
//! The note store is not in this crate. Each operation is therefore a
//! decision: from what the store holds and what the caller presents to the
//! reply and to what the store is asked to do next. The caller of this crate
//! performs that action and reports back how it went.

use vstd::prelude::*;
use crate::note::QueryNoteView;

pub mod create;
pub mod delete;
pub mod read;
pub mod refresh;
pub mod sweep;

verus! {

/// What the note store is asked to do with the note that a request names.
#[derive(Clone, Copy, Debug, PartialEq, Eq, Structural)]
pub enum StoreAction {
    /// Leave the store as it is.
    Nothing,
    /// Remove the note.
    Delete,
    /// Write the number of reads that are left.
    SetReadsLeft(i32),
}

/// The note store as a mathematical value: the notes by their identifiers.
pub type StoreView = Map<Seq<char>, QueryNoteView>;

/// What the store holds under an identifier.
pub open spec fn lookup(store: StoreView, id: Seq<char>) -> Option<QueryNoteView> {
    if store.contains_key(id) {
        Some(store[id])
    } else {
        None
    }
}

/// The store after it has done to the note `id` what an action asks for.
/// Removing a note that is gone, or counting on one, changes nothing.
pub open spec fn applied(store: StoreView, id: Seq<char>, action: StoreAction) -> StoreView {
    match action {
        StoreAction::Nothing => store,
        StoreAction::Delete => store.remove(id),
        StoreAction::SetReadsLeft(left) => {
            if store.contains_key(id) {
                store.insert(id, QueryNoteView { delete_after_read: Some(left), ..store[id] })
            } else {
                store
            }
        },
    }
}

/// An action touches the note it names and no other.
pub proof fn lemma_action_is_local(
    store: StoreView,
    id: Seq<char>,
    action: StoreAction,
    other: Seq<char>,
)
    requires
        other != id,
    ensures
        lookup(applied(store, id, action), other) == lookup(store, other),
{
}

/// Removing a note twice is the same as removing it once.
pub proof fn lemma_delete_twice(store: StoreView, id: Seq<char>)
    ensures
        applied(applied(store, id, StoreAction::Delete), id, StoreAction::Delete) == applied(
            store,
            id,
            StoreAction::Delete,
        ),
        lookup(applied(store, id, StoreAction::Delete), id).is_none(),
{
    assert(store.remove(id).remove(id) =~= store.remove(id));
}

} // verus!
