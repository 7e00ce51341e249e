//! Ownership claims: what a capability token asserts, and the operations that
//! combine, prune and consult them.
//!
//! A claim is a pair of a note's identifier and the instant the note was
//! created. It authorizes an operation on a note only if the note exists now
//! with exactly that creation instant, so a claim for an identifier that has
//! been given to a newer note authorizes nothing.
//!
//! A token claims each identifier at most once. Every operation here keeps it
//! that way.

use vstd::prelude::*;
use crate::errors::ServerError;
use crate::time::Timestamp;

verus! {

/// One claim as a mathematical value: identifier and creation instant.
pub type ClaimView = (Seq<char>, Timestamp);

/// The content of a capability token.
#[derive(Clone, Debug, PartialEq, Eq)]
pub struct Claims {
    /// The claims, in the order in which they were added. No identifier
    /// occurs twice.
    pub ids: Vec<(String, Timestamp)>,
    /// When the token was issued.
    pub iat: Timestamp,
    /// Where the token was issued to. Advisory; nothing is decided by it.
    pub sub: String,
}

/// The content of a capability token as a mathematical value.
pub struct ClaimsView {
    pub ids: Seq<ClaimView>,
    pub iat: Timestamp,
    pub sub: Seq<char>,
}

/// The claims held in a vector, each identifier taken by its characters.
pub open spec fn claim_views(ids: Seq<(String, Timestamp)>) -> Seq<ClaimView> {
    ids.map_values(|c: (String, Timestamp)| (c.0@, c.1))
}

impl View for Claims {
    type V = ClaimsView;

    open spec fn view(&self) -> ClaimsView {
        ClaimsView { ids: claim_views(self.ids@), iat: self.iat, sub: self.sub@ }
    }
}

/// Whether no identifier is claimed twice.
pub open spec fn distinct_ids(ids: Seq<ClaimView>) -> bool {
    forall|i: int, j: int|
        0 <= i < j < ids.len() ==> (#[trigger] ids[i]).0 != (#[trigger] ids[j]).0
}

impl ClaimsView {
    /// A token claims each identifier at most once.
    pub open spec fn wf(self) -> bool {
        distinct_ids(self.ids)
    }
}

/// The creation instant of the first claim in `ids` for the identifier `id`.
/// In a token, where identifiers are claimed once, it is the only one.
pub open spec fn first_stamp(ids: Seq<ClaimView>, id: Seq<char>) -> Option<Timestamp>
    decreases ids.len(),
{
    if ids.len() == 0 {
        None
    } else if ids[0].0 == id {
        Some(ids[0].1)
    } else {
        first_stamp(ids.drop_first(), id)
    }
}

/// Whether some claim in `ids` is for the identifier `id`.
pub open spec fn mentions(ids: Seq<ClaimView>, id: Seq<char>) -> bool {
    exists|i: int| 0 <= i < ids.len() && (#[trigger] ids[i]).0 == id
}

/// Whether a claim of the first token stays when `incoming` is folded in: it
/// does unless `incoming` claims the same identifier as new or newer.
pub open spec fn survives(claim: ClaimView, incoming: Seq<ClaimView>) -> bool {
    match first_stamp(incoming, claim.0) {
        Some(t) => claim.1.spec_gt(t),
        None => true,
    }
}

/// Whether a claim of the incoming token takes its place among `held`: it
/// does unless `held` claims the same identifier strictly newer.
pub open spec fn prevails(claim: ClaimView, held: Seq<ClaimView>) -> bool {
    match first_stamp(held, claim.0) {
        Some(t) => !t.spec_gt(claim.1),
        None => true,
    }
}

/// `survives` with the incoming claims fixed.
pub open spec fn keeps(incoming: Seq<ClaimView>) -> spec_fn(ClaimView) -> bool {
    |claim: ClaimView| survives(claim, incoming)
}

/// `prevails` with the held claims fixed.
pub open spec fn admits(held: Seq<ClaimView>) -> spec_fn(ClaimView) -> bool {
    |claim: ClaimView| prevails(claim, held)
}

/// The union of two tokens' claims, keyed by identifier: the claims of
/// `first` that survive, in order, followed by the claims of `second` that
/// prevail. For an identifier that both claim, the later claim stays, and the
/// second token's on a tie.
pub open spec fn merged(first: Seq<ClaimView>, second: Seq<ClaimView>) -> Seq<ClaimView> {
    first.filter(keeps(second)) + second.filter(admits(first))
}

/// Membership in the list of notes found alive, as a predicate on claims.
pub open spec fn found_in(live: Seq<ClaimView>) -> spec_fn(ClaimView) -> bool {
    |claim: ClaimView| live.contains(claim)
}

/// The claims that are backed by a live note.
pub open spec fn pruned(ids: Seq<ClaimView>, live: Seq<ClaimView>) -> Seq<ClaimView> {
    ids.filter(found_in(live))
}

/// Whether the claims prove ownership of the note `id` created at `created_at`.
pub open spec fn authorizes(ids: Seq<ClaimView>, id: Seq<char>, created_at: Timestamp) -> bool {
    ids.contains((id, created_at))
}

/// Being another claim than `claim`.
pub open spec fn other_than(claim: ClaimView) -> spec_fn(ClaimView) -> bool {
    |c: ClaimView| c != claim
}

/// Being a claim for another identifier than `id`.
pub open spec fn not_for(id: Seq<char>) -> spec_fn(ClaimView) -> bool {
    |c: ClaimView| c.0 != id
}

/// `ids` without `claim`.
pub open spec fn without(ids: Seq<ClaimView>, claim: ClaimView) -> Seq<ClaimView> {
    ids.filter(other_than(claim))
}

/// `ids` with the claim for a note that has just been created: whatever was
/// claimed for the identifier before gives way, and the new claim goes last.
pub open spec fn extended_with(ids: Seq<ClaimView>, id: Seq<char>, created_at: Timestamp) -> Seq<
    ClaimView,
> {
    ids.filter(not_for(id)).push((id, created_at))
}

/// Claims for other identifiers at the front of a list do not matter to
/// `first_stamp`.
proof fn lemma_first_stamp_skip(ids: Seq<ClaimView>, id: Seq<char>, k: int)
    requires
        0 <= k <= ids.len(),
        forall|j: int| 0 <= j < k ==> (#[trigger] ids[j]).0 != id,
    ensures
        first_stamp(ids, id) == first_stamp(ids.skip(k), id),
    decreases k,
{
    if k == 0 {
        assert(ids.skip(0) =~= ids);
    } else {
        lemma_first_stamp_skip(ids, id, k - 1);
        let tail = ids.skip(k - 1);
        assert(tail[0] == ids[k - 1]);
        assert(tail.drop_first() =~= ids.skip(k));
    }
}

/// `first_stamp` finds a claim exactly when the identifier is mentioned, and
/// what it finds is a claim of the list.
pub proof fn lemma_first_stamp_found(ids: Seq<ClaimView>, id: Seq<char>)
    ensures
        first_stamp(ids, id).is_some() <==> mentions(ids, id),
        first_stamp(ids, id) matches Some(t) ==> ids.contains((id, t)),
    decreases ids.len(),
{
    if ids.len() == 0 {
    } else if ids[0].0 == id {
        assert(ids[0] == (id, ids[0].1));
    } else {
        let tail = ids.drop_first();
        lemma_first_stamp_found(tail, id);
        if mentions(tail, id) {
            let i = choose|i: int| 0 <= i < tail.len() && (#[trigger] tail[i]).0 == id;
            assert(ids[i + 1] == tail[i]);
        }
        if mentions(ids, id) {
            let i = choose|i: int| 0 <= i < ids.len() && (#[trigger] ids[i]).0 == id;
            assert(tail[i - 1] == ids[i]);
        }
        if first_stamp(ids, id).is_some() {
            let t = first_stamp(ids, id).unwrap();
            let j = choose|j: int| 0 <= j < tail.len() && tail[j] == (id, t);
            assert(ids[j + 1] == (id, t));
        }
    }
}

/// In a token, the claim for an identifier is the one that `first_stamp`
/// finds.
pub proof fn lemma_only_claim(ids: Seq<ClaimView>, id: Seq<char>, stamp: Timestamp)
    requires
        distinct_ids(ids),
        ids.contains((id, stamp)),
    ensures
        first_stamp(ids, id) == Some(stamp),
{
    lemma_first_stamp_found(ids, id);
    let i = choose|i: int| 0 <= i < ids.len() && ids[i] == (id, stamp);
    assert(ids[i].0 == id);
    let found = first_stamp(ids, id).unwrap();
    let j = choose|j: int| 0 <= j < ids.len() && ids[j] == (id, found);
    assert(ids[j].0 == id);
    if i < j {
        assert(ids[i].0 != ids[j].0);
    } else if j < i {
        assert(ids[j].0 != ids[i].0);
    }
}

/// Dropping claims from a token leaves a token: what is left still claims
/// each identifier at most once.
pub proof fn lemma_filter_keeps_distinct(ids: Seq<ClaimView>, pred: spec_fn(ClaimView) -> bool)
    requires
        distinct_ids(ids),
    ensures
        distinct_ids(ids.filter(pred)),
    decreases ids.len(),
{
    if ids.len() == 0 {
        ids.lemma_filter_len(pred);
    } else {
        let init = ids.drop_last();
        let last = ids.last();
        assert(ids =~= init.push(last));
        assert forall|i: int, j: int| 0 <= i < j < init.len() implies (#[trigger] init[i]).0 != (
        #[trigger] init[j]).0 by {
            assert(init[i] == ids[i] && init[j] == ids[j]);
        }
        lemma_filter_keeps_distinct(init, pred);
        init.lemma_filter_push(last, pred);
        let kept = init.filter(pred);
        if pred(last) {
            let out = kept.push(last);
            assert forall|i: int, j: int| 0 <= i < j < out.len() implies (#[trigger] out[i]).0 != (
            #[trigger] out[j]).0 by {
                if j == kept.len() {
                    assert(kept.contains(kept[i]));
                    init.lemma_filter_contains_rev(pred, kept[i]);
                    let k = choose|k: int| 0 <= k < init.len() && init[k] == kept[i];
                    assert(ids[k] == kept[i]);
                    assert(ids[k].0 != ids[ids.len() - 1].0);
                } else {
                    assert(out[i] == kept[i] && out[j] == kept[j]);
                }
            }
        }
    }
}

/// A merged token claims each identifier at most once.
pub proof fn lemma_merge_is_keyed(a: Seq<ClaimView>, b: Seq<ClaimView>)
    requires
        distinct_ids(a),
        distinct_ids(b),
    ensures
        distinct_ids(merged(a, b)),
{
    let mine = a.filter(keeps(b));
    let theirs = b.filter(admits(a));
    let out = merged(a, b);
    lemma_filter_keeps_distinct(a, keeps(b));
    lemma_filter_keeps_distinct(b, admits(a));
    assert forall|i: int, j: int| 0 <= i < j < out.len() implies (#[trigger] out[i]).0 != (
    #[trigger] out[j]).0 by {
        if j < mine.len() {
            assert(out[i] == mine[i] && out[j] == mine[j]);
        } else if i >= mine.len() {
            assert(out[i] == theirs[i - mine.len()] && out[j] == theirs[j - mine.len()]);
        } else {
            let c = mine[i];
            let d = theirs[j - mine.len()];
            assert(out[i] == c && out[j] == d);
            a.lemma_filter_pred(keeps(b), i);
            b.lemma_filter_pred(admits(a), j - mine.len());
            assert(mine.contains(c));
            assert(theirs.contains(d));
            a.lemma_filter_contains_rev(keeps(b), c);
            b.lemma_filter_contains_rev(admits(a), d);
            if c.0 == d.0 {
                lemma_only_claim(a, c.0, c.1);
                lemma_only_claim(b, d.0, d.1);
            }
        }
    }
}

/// Merging a token with itself gives the token back, claim for claim.
pub proof fn lemma_merge_idempotent(a: Seq<ClaimView>)
    requires
        distinct_ids(a),
    ensures
        merged(a, a) == a,
        merged(a, a).to_set() == a.to_set(),
{
    assert forall|i: int| 0 <= i < a.len() implies !(keeps(a))(#[trigger] a[i]) by {
        assert(a.contains(a[i]));
        lemma_only_claim(a, a[i].0, a[i].1);
    }
    a.lemma_all_neg_filter_empty(keeps(a));
    assert forall|i: int| 0 <= i < a.len() implies (admits(a))(#[trigger] a[i]) by {
        assert(a.contains(a[i]));
        lemma_only_claim(a, a[i].0, a[i].1);
    }
    lemma_filter_keeps_all(a, admits(a));
    assert(a.filter(keeps(a)) =~= Seq::<ClaimView>::empty());
    assert(merged(a, a) =~= a);
}

/// A filter that every element passes changes nothing.
proof fn lemma_filter_keeps_all(s: Seq<ClaimView>, pred: spec_fn(ClaimView) -> bool)
    requires
        forall|i: int| 0 <= i < s.len() ==> pred(#[trigger] s[i]),
    ensures
        s.filter(pred) == s,
    decreases s.len(),
{
    if s.len() == 0 {
        s.lemma_filter_len(pred);
        assert(s.filter(pred) =~= s);
    } else {
        let init = s.drop_last();
        assert(s =~= init.push(s.last()));
        assert forall|i: int| 0 <= i < init.len() implies pred(#[trigger] init[i]) by {
            assert(init[i] == s[i]);
        }
        lemma_filter_keeps_all(init, pred);
        init.lemma_filter_push(s.last(), pred);
        assert(s.last() == s[s.len() - 1]);
    }
}

/// A merged token holds every claim that only one of the two tokens has an
/// identifier for.
pub proof fn lemma_merge_keeps_unique_claims(a: Seq<ClaimView>, b: Seq<ClaimView>, c: ClaimView)
    ensures
        a.contains(c) && !mentions(b, c.0) ==> merged(a, b).contains(c),
        b.contains(c) && !mentions(a, c.0) ==> merged(a, b).contains(c),
{
    let mine = a.filter(keeps(b));
    let theirs = b.filter(admits(a));
    if a.contains(c) && !mentions(b, c.0) {
        lemma_first_stamp_found(b, c.0);
        let i = choose|i: int| 0 <= i < a.len() && a[i] == c;
        assert((keeps(b))(a[i]));
        a.lemma_filter_contains(keeps(b), i);
        let j = choose|j: int| 0 <= j < mine.len() && mine[j] == c;
        assert(merged(a, b)[j] == c);
    }
    if b.contains(c) && !mentions(a, c.0) {
        lemma_first_stamp_found(a, c.0);
        let i = choose|i: int| 0 <= i < b.len() && b[i] == c;
        assert((admits(a))(b[i]));
        b.lemma_filter_contains(admits(a), i);
        let j = choose|j: int| 0 <= j < theirs.len() && theirs[j] == c;
        assert(merged(a, b)[mine.len() + j] == c);
    }
}

/// Whether a list holds a claim, told by the two parts of a merge.
proof fn lemma_merge_contains(a: Seq<ClaimView>, b: Seq<ClaimView>, c: ClaimView)
    ensures
        merged(a, b).contains(c) <==> (a.contains(c) && survives(c, b)) || (b.contains(c)
            && prevails(c, a)),
{
    let mine = a.filter(keeps(b));
    let theirs = b.filter(admits(a));
    let out = merged(a, b);
    if out.contains(c) {
        let i = choose|i: int| 0 <= i < out.len() && out[i] == c;
        if i < mine.len() {
            assert(mine[i] == c);
            assert(mine.contains(c));
            a.lemma_filter_pred(keeps(b), i);
            a.lemma_filter_contains_rev(keeps(b), c);
        } else {
            assert(theirs[i - mine.len()] == c);
            assert(theirs.contains(c));
            b.lemma_filter_pred(admits(a), i - mine.len());
            b.lemma_filter_contains_rev(admits(a), c);
        }
    }
    if a.contains(c) && survives(c, b) {
        let i = choose|i: int| 0 <= i < a.len() && a[i] == c;
        assert((keeps(b))(a[i]));
        a.lemma_filter_contains(keeps(b), i);
        let j = choose|j: int| 0 <= j < mine.len() && mine[j] == c;
        assert(out[j] == c);
    }
    if b.contains(c) && prevails(c, a) {
        let i = choose|i: int| 0 <= i < b.len() && b[i] == c;
        assert((admits(a))(b[i]));
        b.lemma_filter_contains(admits(a), i);
        let j = choose|j: int| 0 <= j < theirs.len() && theirs[j] == c;
        assert(out[mine.len() + j] == c);
    }
}

/// The later creation wins, and wins alone: where both tokens claim an
/// identifier, the merged token holds the first token's claim if it is
/// strictly newer and the second token's otherwise, and no other claim for
/// that identifier.
pub proof fn lemma_merge_later_wins(
    a: Seq<ClaimView>,
    b: Seq<ClaimView>,
    id: Seq<char>,
    mine: Timestamp,
    theirs: Timestamp,
    any: Timestamp,
)
    requires
        distinct_ids(a),
        distinct_ids(b),
        a.contains((id, mine)),
        b.contains((id, theirs)),
    ensures
        merged(a, b).contains((id, any)) <==> any == (if mine.spec_gt(theirs) {
            mine
        } else {
            theirs
        }),
{
    lemma_only_claim(a, id, mine);
    lemma_only_claim(b, id, theirs);
    lemma_merge_contains(a, b, (id, any));
    if a.contains((id, any)) {
        lemma_only_claim(a, id, any);
    }
    if b.contains((id, any)) {
        lemma_only_claim(b, id, any);
    }
}

/// Every claim of a merged token comes from one of the two tokens.
pub proof fn lemma_merge_invents_nothing(a: Seq<ClaimView>, b: Seq<ClaimView>, c: ClaimView)
    requires
        merged(a, b).contains(c),
    ensures
        a.contains(c) || b.contains(c),
{
    lemma_merge_contains(a, b, c);
}

/// Claims authorize a note exactly when they hold the pair of its identifier
/// and its creation instant: a claim that differs in either part is of no use.
pub proof fn lemma_authorization_is_exact(
    claim: ClaimView,
    id: Seq<char>,
    created_at: Timestamp,
)
    ensures
        authorizes(seq![claim], id, created_at) <==> (claim.0 == id && claim.1 == created_at),
{
    let single = seq![claim];
    if claim.0 == id && claim.1 == created_at {
        assert(single[0] == (id, created_at));
    }
    if authorizes(single, id, created_at) {
        let i = choose|i: int| 0 <= i < single.len() && single[i] == (id, created_at);
        assert(single[0] == (id, created_at));
    }
}

/// A claim made for one creation of an identifier does not authorize a later
/// note that reuses the identifier, unless the later note is claimed as well.
pub proof fn lemma_stale_claim_authorizes_nothing(
    ids: Seq<ClaimView>,
    id: Seq<char>,
    old_stamp: Timestamp,
    new_stamp: Timestamp,
)
    requires
        old_stamp != new_stamp,
        forall|i: int| 0 <= i < ids.len() && (#[trigger] ids[i]).0 == id ==> ids[i].1 == old_stamp,
    ensures
        !authorizes(ids, id, new_stamp),
{
    if authorizes(ids, id, new_stamp) {
        let i = choose|i: int| 0 <= i < ids.len() && ids[i] == (id, new_stamp);
        assert(ids[i].0 == id);
    }
}

/// What a filter keeps: the elements that pass, and no others.
proof fn lemma_filter_contains_iff(
    ids: Seq<ClaimView>,
    pred: spec_fn(ClaimView) -> bool,
    c: ClaimView,
)
    ensures
        ids.filter(pred).contains(c) <==> (ids.contains(c) && pred(c)),
{
    let out = ids.filter(pred);
    if out.contains(c) {
        ids.lemma_filter_contains_rev(pred, c);
        let j = choose|j: int| 0 <= j < out.len() && out[j] == c;
        ids.lemma_filter_pred(pred, j);
    }
    if ids.contains(c) && pred(c) {
        let i = choose|i: int| 0 <= i < ids.len() && ids[i] == c;
        ids.lemma_filter_contains(pred, i);
    }
}

/// Filtering a second time by the same predicate removes nothing more.
proof fn lemma_filter_twice(s: Seq<ClaimView>, pred: spec_fn(ClaimView) -> bool)
    ensures
        s.filter(pred).filter(pred) == s.filter(pred),
{
    let once = s.filter(pred);
    assert forall|i: int| 0 <= i < once.len() implies pred(#[trigger] once[i]) by {
        s.lemma_filter_pred(pred, i);
    }
    lemma_filter_keeps_all(once, pred);
}

/// Pruning a token that has just been pruned against the same notes changes
/// nothing.
pub proof fn lemma_prune_idempotent(ids: Seq<ClaimView>, live: Seq<ClaimView>)
    ensures
        pruned(pruned(ids, live), live) == pruned(ids, live),
{
    lemma_filter_twice(ids, found_in(live));
}

/// Pruning keeps exactly the claims that are found alive, keeps their order,
/// and leaves a token a token.
pub proof fn lemma_prune_keeps_live_claims(ids: Seq<ClaimView>, live: Seq<ClaimView>, c: ClaimView)
    ensures
        pruned(ids, live).contains(c) <==> (ids.contains(c) && live.contains(c)),
        distinct_ids(ids) ==> distinct_ids(pruned(ids, live)),
{
    lemma_filter_contains_iff(ids, found_in(live), c);
    if distinct_ids(ids) {
        lemma_filter_keeps_distinct(ids, found_in(live));
    }
}

/// Removing a consumed claim takes that claim away and leaves every other in
/// place; a token that does not hold the claim stays as it was.
pub proof fn lemma_without(ids: Seq<ClaimView>, claim: ClaimView, other: ClaimView)
    ensures
        !without(ids, claim).contains(claim),
        other != claim ==> (without(ids, claim).contains(other) <==> ids.contains(other)),
        !ids.contains(claim) ==> without(ids, claim) == ids,
        distinct_ids(ids) ==> distinct_ids(without(ids, claim)),
{
    lemma_filter_contains_iff(ids, other_than(claim), claim);
    lemma_filter_contains_iff(ids, other_than(claim), other);
    if !ids.contains(claim) {
        assert forall|i: int| 0 <= i < ids.len() implies (other_than(claim))(#[trigger] ids[i]) by {
            assert(ids.contains(ids[i]));
        }
        lemma_filter_keeps_all(ids, other_than(claim));
    }
    if distinct_ids(ids) {
        lemma_filter_keeps_distinct(ids, other_than(claim));
    }
}

/// Extending a token gives a token that holds the new claim, holds no other
/// claim for its identifier, and holds every claim for other identifiers
/// that it held before.
pub proof fn lemma_extended(
    ids: Seq<ClaimView>,
    id: Seq<char>,
    created_at: Timestamp,
    other: ClaimView,
)
    ensures
        authorizes(extended_with(ids, id, created_at), id, created_at),
        distinct_ids(ids) ==> distinct_ids(extended_with(ids, id, created_at)),
        other.0 != id ==> (extended_with(ids, id, created_at).contains(other) <==> ids.contains(
            other,
        )),
        other.0 == id && other.1 != created_at ==> !extended_with(ids, id, created_at).contains(
            other,
        ),
{
    let kept = ids.filter(not_for(id));
    let out = extended_with(ids, id, created_at);
    assert(out[kept.len() as int] == (id, created_at));
    lemma_filter_contains_iff(ids, not_for(id), other);
    if out.contains(other) {
        let i = choose|i: int| 0 <= i < out.len() && out[i] == other;
        if i < kept.len() {
            assert(kept[i] == other);
            assert(kept.contains(other));
        }
    }
    if kept.contains(other) {
        let i = choose|i: int| 0 <= i < kept.len() && kept[i] == other;
        assert(out[i] == other);
    }
    if distinct_ids(ids) {
        lemma_filter_keeps_distinct(ids, not_for(id));
        assert forall|i: int, j: int| 0 <= i < j < out.len() implies (#[trigger] out[i]).0 != (
        #[trigger] out[j]).0 by {
            if j == kept.len() {
                assert(out[i] == kept[i]);
                ids.lemma_filter_pred(not_for(id), i);
            } else {
                assert(out[i] == kept[i] && out[j] == kept[j]);
            }
        }
    }
}

/// What decides whether a claim stays in a list.
enum Sieve<'a> {
    /// The claims that survive the folding in of these.
    Survivors(&'a Vec<(String, Timestamp)>),
    /// The claims that prevail over these.
    Admitted(&'a Vec<(String, Timestamp)>),
    /// The claims that are among these.
    Alive(&'a Vec<(String, Timestamp)>),
    /// All claims but this one.
    Except(&'a String, Timestamp),
    /// The claims for other identifiers than this.
    NotFor(&'a String),
}

/// The predicate that a sieve stands for.
spec fn sieve_pred(sieve: Sieve) -> spec_fn(ClaimView) -> bool {
    match sieve {
        Sieve::Survivors(incoming) => keeps(claim_views(incoming@)),
        Sieve::Admitted(held) => admits(claim_views(held@)),
        Sieve::Alive(live) => found_in(claim_views(live@)),
        Sieve::Except(id, stamp) => other_than((id@, stamp)),
        Sieve::NotFor(id) => not_for(id@),
    }
}

/// Copies one claim.
fn copy_claim(claim: &(String, Timestamp)) -> (r: (String, Timestamp))
    ensures
        r.0@ == claim.0@,
        r.1 == claim.1,
{
    (claim.0.clone(), claim.1)
}

/// Whether a claim passes a sieve.
fn passes(sieve: &Sieve, claim: &(String, Timestamp)) -> (b: bool)
    ensures
        b == (sieve_pred(*sieve))((claim.0@, claim.1)),
{
    match sieve {
        Sieve::Survivors(incoming) => match find_stamp(incoming, &claim.0) {
            Some(t) => claim.1.gt(&t),
            None => true,
        },
        Sieve::Admitted(held) => match find_stamp(held, &claim.0) {
            Some(t) => !t.gt(&claim.1),
            None => true,
        },
        Sieve::Alive(live) => holds_claim(live, &claim.0, claim.1),
        Sieve::Except(id, stamp) => !(claim.0 == **id && claim.1 == *stamp),
        Sieve::NotFor(id) => !(claim.0 == **id),
    }
}

/// Copies to the end of `out` the claims of `from` that pass the sieve.
fn sift(out: &mut Vec<(String, Timestamp)>, from: &Vec<(String, Timestamp)>, sieve: &Sieve)
    ensures
        claim_views(final(out)@) == claim_views(old(out)@) + claim_views(from@).filter(
            sieve_pred(*sieve),
        ),
{
    let ghost before = claim_views(out@);
    let ghost all = claim_views(from@);
    let ghost pred = sieve_pred(*sieve);
    let mut i: usize = 0;
    proof {
        assert(all.take(0) =~= Seq::<ClaimView>::empty());
        Seq::<ClaimView>::empty().lemma_all_neg_filter_empty(pred);
        assert(claim_views(out@) =~= before + all.take(0).filter(pred));
    }
    while i < from.len()
        invariant
            0 <= i <= from.len(),
            all == claim_views(from@),
            pred == sieve_pred(*sieve),
            claim_views(out@) == before + all.take(i as int).filter(pred),
        decreases from.len() - i,
    {
        let ghost so_far = out@;
        let stays = passes(sieve, &from[i]);
        proof {
            assert(all.take(i + 1) =~= all.take(i as int).push(all[i as int]));
            all.take(i as int).lemma_filter_push(all[i as int], pred);
            assert(all[i as int] == (from@[i as int].0@, from@[i as int].1));
        }
        if stays {
            let claim = copy_claim(&from[i]);
            out.push(claim);
            proof {
                assert(claim_views(out@) =~= claim_views(so_far).push((claim.0@, claim.1)));
                assert(claim_views(out@) =~= before + all.take(i + 1).filter(pred));
            }
        }
        i += 1;
    }
    proof {
        assert(all.take(from@.len() as int) =~= all);
    }
}

/// The creation instant of the first claim for `id`, if there is one.
pub fn find_stamp(ids: &Vec<(String, Timestamp)>, id: &String) -> (r: Option<Timestamp>)
    ensures
        r == first_stamp(claim_views(ids@), id@),
{
    let mut i: usize = 0;
    while i < ids.len()
        invariant
            0 <= i <= ids.len(),
            forall|j: int| 0 <= j < i ==> (#[trigger] claim_views(ids@)[j]).0 != id@,
        decreases ids.len() - i,
    {
        if ids[i].0 == *id {
            proof {
                lemma_first_stamp_skip(claim_views(ids@), id@, i as int);
                assert(claim_views(ids@).skip(i as int)[0] == claim_views(ids@)[i as int]);
            }
            return Some(ids[i].1);
        }
        i += 1;
    }
    proof {
        lemma_first_stamp_found(claim_views(ids@), id@);
    }
    None
}

/// Whether the claims hold the pair of `id` and `created_at`.
pub fn holds_claim(ids: &Vec<(String, Timestamp)>, id: &String, created_at: Timestamp) -> (b: bool)
    ensures
        b == authorizes(claim_views(ids@), id@, created_at),
{
    let mut i: usize = 0;
    while i < ids.len()
        invariant
            0 <= i <= ids.len(),
            forall|j: int| 0 <= j < i ==> (#[trigger] claim_views(ids@)[j]) != (id@, created_at),
        decreases ids.len() - i,
    {
        if ids[i].0 == *id && ids[i].1 == created_at {
            proof {
                assert(claim_views(ids@)[i as int] == (id@, created_at));
            }
            return true;
        }
        i += 1;
    }
    false
}

/// Whether no identifier is claimed twice.
pub fn claims_once(ids: &Vec<(String, Timestamp)>) -> (b: bool)
    ensures
        b == distinct_ids(claim_views(ids@)),
{
    let ghost all = claim_views(ids@);
    let mut j: usize = 0;
    while j < ids.len()
        invariant
            0 <= j <= ids.len(),
            all == claim_views(ids@),
            forall|a: int, b: int| 0 <= a < b < j ==> (#[trigger] all[a]).0 != (#[trigger] all[b]).0,
        decreases ids.len() - j,
    {
        let mut i: usize = 0;
        while i < j
            invariant
                0 <= i <= j < ids.len(),
                all == claim_views(ids@),
                forall|a: int| 0 <= a < i ==> (#[trigger] all[a]).0 != all[j as int].0,
            decreases j - i,
        {
            if ids[i].0 == ids[j].0 {
                proof {
                    assert(all[i as int].0 == all[j as int].0);
                }
                return false;
            }
            i += 1;
        }
        j += 1;
    }
    true
}

/// Whether a token proves ownership of the note `id` created at `created_at`.
///
/// `verified` holds the token's claims where the token is present and its
/// signature is good. The answer is yes exactly when it does and the claims
/// hold the pair of this identifier and this creation instant.
pub fn authorize_delete(verified: Option<&Claims>, id: &String, created_at: Timestamp) -> (b: bool)
    ensures
        b == (verified matches Some(claims) && authorizes(claims@.ids, id@, created_at)),
{
    match verified {
        Some(claims) => holds_claim(&claims.ids, id, created_at),
        None => false,
    }
}

impl Claims {
    /// A token content with the given claims, unless they claim an
    /// identifier twice.
    pub fn new(ids: Vec<(String, Timestamp)>, iat: Timestamp, sub: String) -> (r: Option<Claims>)
        ensures
            r.is_some() == distinct_ids(claim_views(ids@)),
            r matches Some(claims) ==> claims.ids == ids && claims.iat == iat && claims.sub == sub
                && claims@.wf(),
    {
        if claims_once(&ids) {
            Some(Claims { ids, iat, sub })
        } else {
            None
        }
    }

    /// The claims of a verified token. `read` holds what the token's content
    /// was read as, or nothing if it could not be read as claims.
    ///
    /// Content that is not claims, or that claims an identifier twice, gives
    /// no access.
    pub fn from_token(read: Option<(Vec<(String, Timestamp)>, Timestamp, String)>) -> (r: Result<
        Claims,
        ServerError,
    >)
        ensures
            match read {
                Some((ids, iat, sub)) => if distinct_ids(claim_views(ids@)) {
                    r matches Ok(claims) && claims.ids == ids && claims.iat == iat && claims.sub
                        == sub && claims@.wf()
                } else {
                    r == Err::<Claims, ServerError>(ServerError::GeneralNoAccess)
                },
                None => r == Err::<Claims, ServerError>(ServerError::GeneralNoAccess),
            },
    {
        match read {
            Some((ids, iat, sub)) => match Claims::new(ids, iat, sub) {
                Some(claims) => Ok(claims),
                None => Err(ServerError::GeneralNoAccess),
            },
            None => Err(ServerError::GeneralNoAccess),
        }
    }

    /// Whether the token claims each identifier at most once.
    pub fn is_wf(&self) -> (b: bool)
        ensures
            b == self@.wf(),
    {
        claims_once(&self.ids)
    }

    /// The union of the claims of `self` and of `second`, keyed by
    /// identifier.
    ///
    /// A claim that only one token has an identifier for stays. Where both
    /// claim an identifier, the later claim stays and the other goes; on a
    /// tie the claim of `second` stays. The claims of `self` come first. The
    /// result is issued at `now` to `subject`.
    pub fn combine(&self, second: &Claims, now: Timestamp, subject: &str) -> (r: Claims)
        ensures
            r@.ids == merged(self@.ids, second@.ids),
            self@.wf() && second@.wf() ==> r@.wf(),
            r.iat == now,
            r.sub@ == subject@,
    {
        let mut out: Vec<(String, Timestamp)> = Vec::new();
        proof {
            assert(claim_views(out@) =~= Seq::<ClaimView>::empty());
        }
        sift(&mut out, &self.ids, &Sieve::Survivors(&second.ids));
        sift(&mut out, &second.ids, &Sieve::Admitted(&self.ids));
        proof {
            assert(claim_views(out@) =~= merged(self@.ids, second@.ids));
            if self@.wf() && second@.wf() {
                lemma_merge_is_keyed(self@.ids, second@.ids);
            }
        }
        Claims { ids: out, iat: now, sub: subject.to_owned() }
    }

    /// Drops the claims that no live note backs.
    ///
    /// `live` lists, for the identifiers that the token claims and that the
    /// note store knows, the identifier with the creation instant of the note
    /// stored under it. A claim stays exactly when `live` holds it. The result
    /// is issued at `now` to `subject`.
    pub fn prune(&self, live: &Vec<(String, Timestamp)>, now: Timestamp, subject: &str) -> (r:
        Claims)
        ensures
            r@.ids == pruned(self@.ids, claim_views(live@)),
            self@.wf() ==> r@.wf(),
            r.iat == now,
            r.sub@ == subject@,
    {
        let mut out: Vec<(String, Timestamp)> = Vec::new();
        proof {
            assert(claim_views(out@) =~= Seq::<ClaimView>::empty());
        }
        sift(&mut out, &self.ids, &Sieve::Alive(live));
        proof {
            assert(claim_views(out@) =~= pruned(self@.ids, claim_views(live@)));
            if self@.wf() {
                lemma_filter_keeps_distinct(self@.ids, found_in(claim_views(live@)));
            }
        }
        Claims { ids: out, iat: now, sub: subject.to_owned() }
    }

    /// The token content for a caller who has just created the note `id` at
    /// `created_at`: the claims of the token that the caller held, without
    /// what it claimed for this identifier before, and the new claim at the
    /// end. Without a token to extend, the claim stands alone. The result is
    /// issued at `now` to `subject`.
    pub fn extended(
        existing: Option<&Claims>,
        id: &String,
        created_at: Timestamp,
        now: Timestamp,
        subject: &str,
    ) -> (r: Claims)
        ensures
            r@.ids == extended_with(
                match existing {
                    Some(claims) => claims@.ids,
                    None => Seq::<ClaimView>::empty(),
                },
                id@,
                created_at,
            ),
            authorizes(r@.ids, id@, created_at),
            (existing matches Some(claims) ==> claims@.wf()) ==> r@.wf(),
            r.iat == now,
            r.sub@ == subject@,
    {
        let ghost held = match existing {
            Some(claims) => claims@.ids,
            None => Seq::<ClaimView>::empty(),
        };
        let mut out: Vec<(String, Timestamp)> = Vec::new();
        proof {
            assert(claim_views(out@) =~= Seq::<ClaimView>::empty());
        }
        match existing {
            Some(claims) => {
                sift(&mut out, &claims.ids, &Sieve::NotFor(id));
            },
            None => {
                proof {
                    Seq::<ClaimView>::empty().lemma_all_neg_filter_empty(not_for(id@));
                }
            },
        }
        let ghost so_far = out@;
        proof {
            assert(claim_views(so_far) =~= held.filter(not_for(id@)));
        }
        out.push((id.clone(), created_at));
        proof {
            assert(claim_views(out@) =~= claim_views(so_far).push((id@, created_at)));
            lemma_extended(held, id@, created_at, (id@, created_at));
        }
        Claims { ids: out, iat: now, sub: subject.to_owned() }
    }

    /// The token content without the claim for `id` created at `created_at`;
    /// unchanged where there is no such claim. Issue instant and subject stay.
    pub fn without_claim(&self, id: &String, created_at: Timestamp) -> (r: Claims)
        ensures
            r@.ids == without(self@.ids, (id@, created_at)),
            self@.wf() ==> r@.wf(),
            r.iat == self.iat,
            r.sub@ == self.sub@,
    {
        let mut out: Vec<(String, Timestamp)> = Vec::new();
        proof {
            assert(claim_views(out@) =~= Seq::<ClaimView>::empty());
        }
        sift(&mut out, &self.ids, &Sieve::Except(id, created_at));
        proof {
            assert(claim_views(out@) =~= without(self@.ids, (id@, created_at)));
            if self@.wf() {
                lemma_filter_keeps_distinct(self@.ids, other_than((id@, created_at)));
            }
        }
        Claims { ids: out, iat: self.iat, sub: self.sub.clone() }
    }
}

} // verus!
