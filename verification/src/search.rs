//! Search by title: what may be listed, and how much of it at a time.

use vstd::prelude::*;
use crate::note::{NoteInfo, NoteInfoView, QueryNote, QueryNoteView};

verus! {

/// The number of notes that a search lists where the caller names none.
pub const DEFAULT_LIMIT: i64 = 5;

/// What a search asks for.
#[derive(Clone, Debug, PartialEq, Eq)]
pub struct FilterParameterQuery {
    /// The pattern that titles are held against.
    pub title: String,
    /// How many matches to pass over.
    pub offset: Option<i64>,
    /// How many matches to list.
    pub limit: Option<i64>,
}

/// Whether a reader wants the content alone.
#[derive(Clone, Copy, Debug, PartialEq, Eq, Structural)]
pub struct ReturnOption {
    pub secret_only: Option<bool>,
}

impl ReturnOption {
    /// The content alone is wanted as soon as the option is named, whatever
    /// its value.
    pub fn content_only(&self) -> (b: bool)
        ensures
            b == self.secret_only.is_some(),
    {
        self.secret_only.is_some()
    }
}

impl FilterParameterQuery {
    /// How many matches to pass over: none, unless the caller says so.
    pub fn offset_or_default(&self) -> (n: i64)
        ensures
            n == match self.offset {
                Some(wish) => wish,
                None => 0,
            },
    {
        match self.offset {
            Some(wish) => wish,
            None => 0,
        }
    }

    /// How many matches to list: five, unless the caller says so.
    pub fn limit_or_default(&self) -> (n: i64)
        ensures
            n == match self.limit {
                Some(wish) => wish,
                None => DEFAULT_LIMIT,
            },
    {
        match self.limit {
            Some(wish) => wish,
            None => DEFAULT_LIMIT,
        }
    }
}

/// The views of the notes in a vector.
pub open spec fn note_views(notes: Seq<QueryNote>) -> Seq<QueryNoteView> {
    notes.map_values(|n: QueryNote| n@)
}

/// The views of the public sides in a vector.
pub open spec fn info_views(notes: Seq<NoteInfo>) -> Seq<NoteInfoView> {
    notes.map_values(|n: NoteInfo| n@)
}

/// `listed` as a predicate on notes.
pub open spec fn is_listed() -> spec_fn(QueryNoteView) -> bool {
    |n: QueryNoteView| n.listed()
}

/// The public sides of the notes that may be listed, in their order.
pub open spec fn listing(notes: Seq<QueryNoteView>) -> Seq<NoteInfoView> {
    notes.filter(is_listed()).map_values(|n: QueryNoteView| n.info())
}

/// Picks from the rows of a search those that may be listed, and hands out
/// what is public of them.
///
/// A note that is sealed, that arrived encrypted or that is not discoverable
/// is never among them, whatever the rows hold.
pub fn list_notes(rows: &Vec<QueryNote>) -> (out: Vec<NoteInfo>)
    ensures
        info_views(out@) == listing(note_views(rows@)),
{
    let ghost all = note_views(rows@);
    let mut out: Vec<NoteInfo> = Vec::new();
    let mut i: usize = 0;
    proof {
        assert(all.take(0) =~= Seq::<QueryNoteView>::empty());
        Seq::<QueryNoteView>::empty().lemma_all_neg_filter_empty(is_listed());
        assert(info_views(out@) =~= listing(all.take(0)));
    }
    while i < rows.len()
        invariant
            0 <= i <= rows.len(),
            all == note_views(rows@),
            info_views(out@) == listing(all.take(i as int)),
        decreases rows.len() - i,
    {
        let ghost so_far = out@;
        proof {
            assert(all.take(i + 1) =~= all.take(i as int).push(all[i as int]));
            all.take(i as int).lemma_filter_push(all[i as int], is_listed());
            assert(all[i as int] == rows@[i as int]@);
        }
        if rows[i].is_listed() {
            let info = rows[i].info();
            out.push(info);
            proof {
                assert(info_views(out@) =~= info_views(so_far).push(info@));
                assert(listing(all.take(i + 1)) =~= listing(all.take(i as int)).push(
                    all[i as int].info(),
                ));
            }
        }
        i += 1;
    }
    proof {
        assert(all.take(rows@.len() as int) =~= all);
    }
    out
}

/// Nothing that a search lists is sealed, arrived encrypted or is hidden from
/// discovery: every listed entry is the public side of a row that may be
/// listed.
pub proof fn lemma_listing_shows_only_listed(notes: Seq<QueryNoteView>, i: int)
    requires
        0 <= i < listing(notes).len(),
    ensures
        exists|j: int|
            0 <= j < notes.len() && (#[trigger] notes[j]).listed() && listing(notes)[i]
                == notes[j].info(),
        !listing(notes)[i].backend_encryption,
        !listing(notes)[i].frontend_encryption,
{
    let kept = notes.filter(is_listed());
    notes.lemma_filter_pred(is_listed(), i);
    assert(kept.contains(kept[i]));
    notes.lemma_filter_contains_rev(is_listed(), kept[i]);
    let j = choose|j: int| 0 <= j < notes.len() && notes[j] == kept[i];
    assert(notes[j].listed());
}

} // verus!
