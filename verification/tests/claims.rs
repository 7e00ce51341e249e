use sealed_notes::claims::{authorize_delete, claims_once, find_stamp, holds_claim, Claims};
use sealed_notes::errors::ServerError;
use sealed_notes::time::Timestamp;

fn at(secs: u64) -> Timestamp {
    Timestamp::new(secs, 0)
}

fn claim(id: &str, secs: u64) -> (String, Timestamp) {
    (id.to_string(), at(secs))
}

fn token(ids: Vec<(String, Timestamp)>) -> Claims {
    Claims::new(ids, at(1), "origin".to_string()).unwrap()
}

fn as_set(ids: &[(String, Timestamp)]) -> std::collections::BTreeSet<(String, u64, u32)> {
    ids.iter().map(|c| (c.0.clone(), c.1.secs, c.1.nanos)).collect()
}

#[test]
fn merge_keeps_claims_that_only_one_side_has() {
    let a = token(vec![claim("a1", 10), claim("a2", 20)]);
    let b = token(vec![claim("b1", 30)]);
    let merged = a.combine(&b, at(99), "peer");
    assert_eq!(merged.ids, vec![claim("a1", 10), claim("a2", 20), claim("b1", 30)]);
    assert_eq!(merged.iat, at(99));
    assert_eq!(merged.sub, "peer");
}

#[test]
fn merge_prefers_the_second_token_on_a_tie() {
    let a = token(vec![claim("x", 10)]);
    let b = token(vec![claim("x", 10)]);
    let merged = a.combine(&b, at(99), "peer");
    assert_eq!(merged.ids, vec![claim("x", 10)]);
}

#[test]
fn merge_drops_the_older_claim_of_the_first_token() {
    let a = token(vec![claim("x", 10), claim("y", 5)]);
    let b = token(vec![claim("x", 11)]);
    let merged = a.combine(&b, at(99), "peer");
    assert_eq!(merged.ids, vec![claim("y", 5), claim("x", 11)]);
}

#[test]
fn merge_keeps_a_strictly_newer_claim_of_the_first_token_alone() {
    let a = token(vec![claim("x", 12)]);
    let b = token(vec![claim("x", 11)]);
    let merged = a.combine(&b, at(99), "peer");
    assert_eq!(merged.ids, vec![claim("x", 12)]);
    let swapped = b.combine(&a, at(99), "peer");
    assert_eq!(swapped.ids, vec![claim("x", 12)]);
}

#[test]
fn merge_compares_sub_second_parts() {
    let a = token(vec![("x".to_string(), Timestamp::new(5, 2))]);
    let b = token(vec![("x".to_string(), Timestamp::new(5, 1))]);
    let merged = a.combine(&b, at(99), "peer");
    assert_eq!(merged.ids, vec![("x".to_string(), Timestamp::new(5, 2))]);
    let merged = b.combine(&a, at(99), "peer");
    assert_eq!(merged.ids, vec![("x".to_string(), Timestamp::new(5, 2))]);
}

#[test]
fn merge_claims_each_identifier_once() {
    let a = token(vec![claim("x", 10), claim("y", 7), claim("z", 1)]);
    let b = token(vec![claim("y", 3), claim("x", 20), claim("w", 4)]);
    let merged = a.combine(&b, at(99), "peer");
    assert_eq!(merged.ids, vec![claim("y", 7), claim("z", 1), claim("x", 20), claim("w", 4)]);
    assert!(merged.is_wf());
    let ids: std::collections::BTreeSet<&str> = merged.ids.iter().map(|c| c.0.as_str()).collect();
    assert_eq!(ids.len(), merged.ids.len());
}

#[test]
fn merge_with_itself_leaves_the_claims_as_they_are() {
    let a = token(vec![claim("a", 10), claim("b", 20), claim("c", 5)]);
    let merged = a.combine(&a, at(99), "peer");
    assert_eq!(merged.ids, a.ids);
}

#[test]
fn merge_with_itself_leaves_the_claim_set() {
    let a = token(vec![claim("x", 1), claim("z", 5), claim("y", 2)]);
    let merged = a.combine(&a, at(99), "peer");
    assert_eq!(as_set(&merged.ids), as_set(&a.ids));
    assert_eq!(merged.ids, a.ids);
}

#[test]
fn token_that_claims_an_identifier_twice_is_refused() {
    assert_eq!(Claims::new(vec![claim("x", 1), claim("x", 5)], at(1), "o".to_string()), None);
    assert_eq!(Claims::new(vec![claim("x", 1), claim("y", 5), claim("x", 1)], at(1), "o".to_string()), None);
    assert!(Claims::new(vec![claim("x", 1), claim("y", 1)], at(1), "o".to_string()).is_some());
    assert!(Claims::new(Vec::new(), at(1), "o".to_string()).is_some());
    let twice = Claims { ids: vec![claim("x", 1), claim("x", 5)], iat: at(1), sub: "o".to_string() };
    assert!(!twice.is_wf());
    assert!(token(vec![claim("x", 1), claim("X", 5)]).is_wf());
}

#[test]
fn claims_of_a_verified_token_are_accepted_or_give_no_access() {
    let read = Some((vec![claim("x", 1), claim("y", 2)], at(9), "o".to_string()));
    let claims = Claims::from_token(read).unwrap();
    assert_eq!(claims.ids, vec![claim("x", 1), claim("y", 2)]);
    assert_eq!(claims.iat, at(9));
    assert_eq!(claims.sub, "o");
    let twice = Some((vec![claim("x", 1), claim("x", 2)], at(9), "o".to_string()));
    assert_eq!(Claims::from_token(twice), Err(ServerError::GeneralNoAccess));
    assert_eq!(Claims::from_token(None), Err(ServerError::GeneralNoAccess));
}

#[test]
fn merge_of_empty_tokens_is_empty() {
    let a = token(Vec::new());
    let b = token(vec![claim("x", 1)]);
    assert_eq!(a.combine(&a, at(9), "p").ids, Vec::new());
    assert_eq!(a.combine(&b, at(9), "p").ids, vec![claim("x", 1)]);
    assert_eq!(b.combine(&a, at(9), "p").ids, vec![claim("x", 1)]);
}

#[test]
fn authorize_delete_needs_the_exact_pair() {
    let t = token(vec![claim("note", 100)]);
    assert!(authorize_delete(Some(&t), &"note".to_string(), at(100)));
    assert!(!authorize_delete(Some(&t), &"note".to_string(), at(101)));
    assert!(!authorize_delete(Some(&t), &"note".to_string(), Timestamp::new(100, 1)));
    assert!(!authorize_delete(Some(&t), &"Note".to_string(), at(100)));
    assert!(!authorize_delete(Some(&t), &"other".to_string(), at(100)));
}

#[test]
fn authorize_delete_fails_without_a_verified_token() {
    assert!(!authorize_delete(None, &"note".to_string(), at(100)));
}

#[test]
fn authorize_delete_looks_at_every_claim() {
    let t = token(vec![claim("other", 50), claim("note", 100)]);
    assert!(authorize_delete(Some(&t), &"note".to_string(), at(100)));
    assert!(authorize_delete(Some(&t), &"other".to_string(), at(50)));
    assert!(!authorize_delete(Some(&t), &"note".to_string(), at(50)));
}

#[test]
fn find_stamp_gives_the_first_claim_for_an_identifier() {
    let ids = vec![claim("a", 1), claim("b", 2), claim("a", 3)];
    assert!(!claims_once(&ids));
    assert_eq!(find_stamp(&ids, &"a".to_string()), Some(at(1)));
    assert_eq!(find_stamp(&ids, &"b".to_string()), Some(at(2)));
    assert_eq!(find_stamp(&ids, &"c".to_string()), None);
    assert_eq!(find_stamp(&Vec::new(), &"a".to_string()), None);
}

#[test]
fn holds_claim_compares_both_parts() {
    let ids = vec![claim("a", 1), claim("b", 2)];
    assert!(holds_claim(&ids, &"b".to_string(), at(2)));
    assert!(!holds_claim(&ids, &"b".to_string(), at(1)));
    assert!(!holds_claim(&ids, &"a".to_string(), at(2)));
}

#[test]
fn prune_keeps_the_claims_that_a_live_note_backs() {
    let t = token(vec![claim("gone", 1), claim("live", 2), claim("reused", 3)]);
    let live = vec![claim("live", 2), claim("reused", 30)];
    let pruned = t.prune(&live, at(99), "peer");
    assert_eq!(pruned.ids, vec![claim("live", 2)]);
    assert_eq!(pruned.iat, at(99));
    assert_eq!(pruned.sub, "peer");
}

#[test]
fn prune_with_nothing_alive_empties_the_token() {
    let t = token(vec![claim("a", 1), claim("b", 2)]);
    assert_eq!(t.prune(&Vec::new(), at(9), "p").ids, Vec::new());
}

#[test]
fn prune_keeps_the_order_of_the_claims() {
    let t = token(vec![claim("c", 3), claim("a", 1), claim("b", 2)]);
    let live = vec![claim("a", 1), claim("b", 2), claim("c", 3)];
    assert_eq!(t.prune(&live, at(9), "p").ids, t.ids);
}

#[test]
fn without_claim_removes_the_exact_claim_only() {
    let t = token(vec![claim("a", 1), claim("b", 2), claim("c", 1)]);
    let rest = t.without_claim(&"b".to_string(), at(2));
    assert_eq!(rest.ids, vec![claim("a", 1), claim("c", 1)]);
    assert_eq!(rest.iat, t.iat);
    assert_eq!(rest.sub, t.sub);
    assert!(rest.is_wf());
}

#[test]
fn without_claim_leaves_a_token_that_lacks_the_claim() {
    let t = token(vec![claim("a", 1), claim("b", 2)]);
    assert_eq!(t.without_claim(&"a".to_string(), at(2)).ids, t.ids);
    assert_eq!(t.without_claim(&"c".to_string(), at(1)).ids, t.ids);
}

#[test]
fn extended_appends_the_new_claim() {
    let t = token(vec![claim("a", 1)]);
    let more = Claims::extended(Some(&t), &"b".to_string(), at(2), at(50), "peer");
    assert_eq!(more.ids, vec![claim("a", 1), claim("b", 2)]);
    assert_eq!(more.iat, at(50));
    assert_eq!(more.sub, "peer");
    assert!(authorize_delete(Some(&more), &"b".to_string(), at(2)));
}

#[test]
fn extended_without_a_token_gives_a_single_claim() {
    let fresh = Claims::extended(None, &"b".to_string(), at(2), at(50), "peer");
    assert_eq!(fresh.ids, vec![claim("b", 2)]);
}

#[test]
fn extended_replaces_what_was_claimed_for_the_identifier() {
    let t = token(vec![claim("a", 1), claim("b", 2), claim("c", 3)]);
    let more = Claims::extended(Some(&t), &"b".to_string(), at(20), at(50), "peer");
    assert_eq!(more.ids, vec![claim("a", 1), claim("c", 3), claim("b", 20)]);
    assert!(more.is_wf());
    assert!(authorize_delete(Some(&more), &"b".to_string(), at(20)));
    assert!(!authorize_delete(Some(&more), &"b".to_string(), at(2)));
}

#[test]
fn pruning_twice_changes_nothing() {
    let t = token(vec![claim("gone", 1), claim("live", 2), claim("reused", 3)]);
    let live = vec![claim("live", 2), claim("reused", 30)];
    let once = t.prune(&live, at(99), "peer");
    let twice = once.prune(&live, at(99), "peer");
    assert_eq!(once, twice);
}

#[test]
fn merge_keeps_the_later_of_two_claims_for_one_identifier() {
    let old = token(vec![claim("x", 10)]);
    let new = token(vec![claim("x", 20)]);
    assert_eq!(old.combine(&new, at(99), "p").ids, vec![claim("x", 20)]);
    assert_eq!(new.combine(&old, at(99), "p").ids, vec![claim("x", 20)]);
}
