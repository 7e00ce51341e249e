//! Refreshing a token: dropping the claims for notes that are gone.
//!
//! The caller looks each claimed identifier up in the store and hands each
//! answer to `record_lookup`, which lists what was found or ends the refresh;
//! `Claims::prune` then keeps the claims that the list backs. The laws here
//! say what that amounts to in terms of the store.

use vstd::prelude::*;
use crate::claims::{claim_views, found_in, pruned, ClaimView};
use crate::errors::ServerError;
use crate::lifecycle::StoreView;
use crate::time::Timestamp;

verus! {

/// What the store answered when asked for the note under an identifier.
#[derive(Clone, Copy, Debug, PartialEq, Eq, Structural)]
pub enum Lookup {
    /// There is a note, created at this instant.
    Found(Timestamp),
    /// There is no note.
    Missing,
    /// The store failed.
    Failed,
}

/// The list of live notes after one more answer: a note that was found is
/// listed with its creation instant, a missing one is passed over.
pub open spec fn recorded(live: Seq<ClaimView>, id: Seq<char>, lookup: Lookup) -> Seq<ClaimView> {
    match lookup {
        Lookup::Found(created_at) => live.push((id, created_at)),
        Lookup::Missing => live,
        Lookup::Failed => live,
    }
}

/// Takes the store's answer for one claimed identifier.
///
/// A note that was found goes on the list of live notes, so that a claim for
/// it stays if it names the note's creation instant and goes if it names
/// another. A missing note is passed over, so that claims for it go. A
/// failure of the store ends the refresh with `DieselError`: no token is
/// issued on a guess.
pub fn record_lookup(live: &mut Vec<(String, Timestamp)>, id: &String, lookup: Lookup) -> (r:
    Result<(), ServerError>)
    ensures
        claim_views(final(live)@) == recorded(claim_views(old(live)@), id@, lookup),
        lookup == Lookup::Failed ==> r == Err::<(), ServerError>(ServerError::DieselError),
        lookup != Lookup::Failed ==> r is Ok,
{
    match lookup {
        Lookup::Found(created_at) => {
            let ghost before = live@;
            live.push((id.clone(), created_at));
            proof {
                assert(claim_views(live@) =~= claim_views(before).push((id@, created_at)));
            }
            Ok(())
        },
        Lookup::Missing => Ok(()),
        Lookup::Failed => Err(ServerError::DieselError),
    }
}

/// A claim survives a refresh exactly when the store's answer for its
/// identifier was a note created at the claim's instant.
pub proof fn lemma_recorded_backs_the_found_note(
    id: Seq<char>,
    lookup: Lookup,
    claim: ClaimView,
)
    ensures
        recorded(Seq::<ClaimView>::empty(), id, lookup).contains(claim) <==> (lookup
            == Lookup::Found(claim.1) && claim.0 == id),
{
    let live = recorded(Seq::<ClaimView>::empty(), id, lookup);
    if live.contains(claim) {
        let i = choose|i: int| 0 <= i < live.len() && live[i] == claim;
        assert(live[0] == claim);
    }
    if lookup == Lookup::Found(claim.1) && claim.0 == id {
        assert(live[0] == claim);
    }
}

/// Whether the store holds a note with the claim's identifier that was
/// created at the claim's instant.
pub open spec fn backed_by(store: StoreView) -> spec_fn(ClaimView) -> bool {
    |claim: ClaimView| store.contains_key(claim.0) && store[claim.0].created_at == claim.1
}

/// Whether `live` lists, for the claims in `ids`, exactly what the store
/// backs.
pub open spec fn lists_the_store(live: Seq<ClaimView>, ids: Seq<ClaimView>, store: StoreView) -> bool {
    forall|i: int| 0 <= i < ids.len() ==> (live.contains(#[trigger] ids[i]) <==> (backed_by(store))(ids[i]))
}

/// Pruning against a faithful list of what the store holds keeps a claim if
/// and only if a note with that identifier exists and was created at that
/// very instant.
pub proof fn lemma_prune_follows_the_store(
    ids: Seq<ClaimView>,
    live: Seq<ClaimView>,
    store: StoreView,
)
    requires
        lists_the_store(live, ids, store),
    ensures
        pruned(ids, live) == ids.filter(backed_by(store)),
    decreases ids.len(),
{
    if ids.len() == 0 {
        ids.lemma_filter_len(found_in(live));
        ids.lemma_filter_len(backed_by(store));
        assert(ids.filter(found_in(live)) =~= ids.filter(backed_by(store)));
    } else {
        let init = ids.drop_last();
        assert(ids =~= init.push(ids.last()));
        assert forall|i: int| 0 <= i < init.len() implies (live.contains(#[trigger] init[i]) <==> (
        backed_by(store))(init[i])) by {
            assert(init[i] == ids[i]);
        }
        lemma_prune_follows_the_store(init, live, store);
        init.lemma_filter_push(ids.last(), found_in(live));
        init.lemma_filter_push(ids.last(), backed_by(store));
        assert(ids.last() == ids[ids.len() - 1]);
    }
}

/// A claim for a note that was removed from the store does not survive a
/// refresh against it.
pub proof fn lemma_claims_for_removed_notes_go(
    ids: Seq<ClaimView>,
    live: Seq<ClaimView>,
    store: StoreView,
    claim: ClaimView,
)
    requires
        lists_the_store(live, ids, store),
        !store.contains_key(claim.0),
    ensures
        !pruned(ids, live).contains(claim),
{
    lemma_prune_follows_the_store(ids, live, store);
    let kept = ids.filter(backed_by(store));
    if kept.contains(claim) {
        let j = choose|j: int| 0 <= j < kept.len() && kept[j] == claim;
        ids.lemma_filter_pred(backed_by(store), j);
    }
}

} // verus!
