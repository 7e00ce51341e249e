//! The periodic sweep that removes notes whose expiry has been reached.
//!
//! Reads remove an expired note as well, so a sweep that comes late, or
//! twice, changes nothing that a caller can see.

use vstd::prelude::*;
use crate::note::{expired, is_expired, NoteInfo, NoteInfoView};
use crate::search::info_views;
use crate::time::Timestamp;

verus! {

/// Being due at `now`, as a predicate on notes.
pub open spec fn is_due(now: Timestamp) -> spec_fn(NoteInfoView) -> bool {
    |n: NoteInfoView| expired(n.expires_at, now)
}

/// The identifiers of the notes that a sweep at `now` removes: those of the
/// notes that have an expiry and whose expiry has been reached.
pub open spec fn due(notes: Seq<NoteInfoView>, now: Timestamp) -> Seq<Seq<char>> {
    notes.filter(is_due(now)).map_values(|n: NoteInfoView| n.id)
}

/// The characters of the identifiers in a vector.
pub open spec fn id_views(ids: Seq<String>) -> Seq<Seq<char>> {
    ids.map_values(|id: String| id@)
}

/// Picks the notes that a sweep at `now` removes.
pub fn sweep(notes: &Vec<NoteInfo>, now: Timestamp) -> (ids: Vec<String>)
    ensures
        id_views(ids@) == due(info_views(notes@), now),
{
    let ghost all = info_views(notes@);
    let mut ids: Vec<String> = Vec::new();
    let mut i: usize = 0;
    proof {
        assert(all.take(0) =~= Seq::<NoteInfoView>::empty());
        Seq::<NoteInfoView>::empty().lemma_all_neg_filter_empty(is_due(now));
        assert(id_views(ids@) =~= due(all.take(0), now));
    }
    while i < notes.len()
        invariant
            0 <= i <= notes.len(),
            all == info_views(notes@),
            id_views(ids@) == due(all.take(i as int), now),
        decreases notes.len() - i,
    {
        let ghost so_far = ids@;
        proof {
            assert(all.take(i + 1) =~= all.take(i as int).push(all[i as int]));
            all.take(i as int).lemma_filter_push(all[i as int], is_due(now));
            assert(all[i as int] == notes@[i as int]@);
        }
        if is_expired(notes[i].expires_at, now) {
            let id = notes[i].id.clone();
            ids.push(id);
            proof {
                assert(id_views(ids@) =~= id_views(so_far).push(id@));
                assert(due(all.take(i + 1), now) =~= due(all.take(i as int), now).push(
                    all[i as int].id,
                ));
            }
        }
        i += 1;
    }
    proof {
        assert(all.take(notes@.len() as int) =~= all);
    }
    ids
}

/// A sweep removes a note exactly when a read at the same instant would: a
/// note is due if and only if its expiry has been reached.
pub proof fn lemma_sweep_takes_what_reads_take(notes: Seq<NoteInfoView>, now: Timestamp, i: int)
    requires
        0 <= i < notes.len(),
    ensures
        expired(notes[i].expires_at, now) ==> due(notes, now).contains(notes[i].id),
        !expired(notes[i].expires_at, now) ==> !notes.filter(is_due(now)).contains(notes[i]),
{
    let kept = notes.filter(is_due(now));
    if expired(notes[i].expires_at, now) {
        assert((is_due(now))(notes[i]));
        notes.lemma_filter_contains(is_due(now), i);
        let j = choose|j: int| 0 <= j < kept.len() && kept[j] == notes[i];
        assert(due(notes, now)[j] == notes[i].id);
    } else {
        if kept.contains(notes[i]) {
            let j = choose|j: int| 0 <= j < kept.len() && kept[j] == notes[i];
            notes.lemma_filter_pred(is_due(now), j);
        }
    }
}

} // verus!
