use sealed_notes::claims::{authorize_delete, Claims};
use sealed_notes::errors::ServerError;
use sealed_notes::ident::{after_insert, next_candidate, AllocationStep, InsertOutcome};
use sealed_notes::lifecycle::create::{
    after_signing, after_undo, claims_for_note, plan_create, TokenStep,
};
use sealed_notes::lifecycle::delete::{
    delete_note, presents_nothing, settle_delete, DeleteReply,
};
use sealed_notes::lifecycle::refresh::{record_lookup, Lookup};
use sealed_notes::lifecycle::read::{
    info_note, read_note, settle_read, InfoReply, ReadDecision, ReadReply,
};
use sealed_notes::lifecycle::sweep::sweep;
use sealed_notes::lifecycle::StoreAction;
use sealed_notes::note::{NewNote, NoteInfo, QueryNote};
use sealed_notes::time::Timestamp;

fn at(secs: u64) -> Timestamp {
    Timestamp::new(secs, 0)
}

fn request(content: &str) -> NewNote {
    NewNote {
        id: None,
        title: Some("a title".to_string()),
        content: content.to_string(),
        discoverable: None,
        passphrase: None,
        is_currently_encrypted: None,
        lifetime_in_secs: None,
        delete_after_read: None,
        allow_delete_with_passphrase: None,
    }
}

fn find(store: &[QueryNote], id: &str) -> Option<QueryNote> {
    store.iter().find(|n| n.id == id).cloned()
}

fn insert(store: &mut Vec<QueryNote>, note: QueryNote) -> InsertOutcome {
    if store.iter().any(|n| n.id == note.id) {
        InsertOutcome::Conflict
    } else {
        store.push(note);
        InsertOutcome::Inserted
    }
}

fn apply(store: &mut Vec<QueryNote>, id: &str, action: StoreAction) -> bool {
    match action {
        StoreAction::Nothing => {}
        StoreAction::Delete => store.retain(|n| n.id != id),
        StoreAction::SetReadsLeft(n) => {
            for note in store.iter_mut() {
                if note.id == id {
                    note.delete_after_read = Some(n);
                }
            }
        }
    }
    true
}

fn create(store: &mut Vec<QueryNote>, req: &NewNote, held: Option<&Claims>, now: Timestamp) -> (QueryNote, Claims) {
    let plan = plan_create(req, now).unwrap();
    loop {
        let note = plan.draft.with_id(next_candidate(&plan.source));
        match after_insert(&plan.source, insert(store, note.clone())) {
            AllocationStep::Done => {
                let claims = claims_for_note(held, &note, now, "peer");
                return (note, claims);
            }
            AllocationStep::Retry => {}
            AllocationStep::Refused(e) => panic!("refused: {:?}", e),
        }
    }
}

fn read(store: &mut Vec<QueryNote>, id: &str, passphrase: Option<&str>, now: Timestamp) -> ReadReply {
    let found = find(store, id);
    let pass = passphrase.map(|p| p.to_string());
    let decision = read_note(found.as_ref(), pass.as_ref(), now);
    let ok = apply(store, id, decision.action);
    settle_read(decision, ok)
}

#[test]
fn sealed_note_is_created_claimed_and_read_with_its_passphrase_only() {
    let mut store = Vec::new();
    let mut req = request("hello");
    req.passphrase = Some("secret1".to_string());
    req.lifetime_in_secs = Some(60);
    let (note, claims) = create(&mut store, &req, None, at(1000));

    assert_eq!(note.id.len(), 6);
    assert!(note.backend_encryption);
    assert_eq!(note.expires_at, Some(at(1060)));
    assert!(claims.ids.contains(&(note.id.clone(), note.created_at)));
    assert!(authorize_delete(Some(&claims), &note.id, note.created_at));

    let wrong = read(&mut store, &note.id, Some("wrong"), at(1001));
    let missing = read(&mut store, "nosuch", Some("wrong"), at(1001));
    assert_eq!(wrong, ReadReply::NotFound);
    assert_eq!(wrong, missing);
    assert_eq!(read(&mut store, &note.id, None, at(1001)), missing);

    match read(&mut store, &note.id, Some("secret1"), at(1002)) {
        ReadReply::Content(reply) => {
            assert_eq!(reply.content, "hello");
            assert_eq!(reply.id, note.id);
            assert!(reply.backend_encryption);
        }
        other => panic!("unexpected reply: {:?}", other),
    }
    assert_eq!(store.len(), 1);
}

#[test]
fn wrong_passphrase_leaves_the_store_alone() {
    let mut store = Vec::new();
    let mut req = request("hello");
    req.passphrase = Some("secret1".to_string());
    req.delete_after_read = Some(1);
    let (note, _) = create(&mut store, &req, None, at(1000));
    let found = find(&store, &note.id);
    let decision = read_note(found.as_ref(), Some(&"wrong".to_string()), at(1001));
    assert_eq!(decision, ReadDecision { reply: ReadReply::NotFound, action: StoreAction::Nothing });
    let absent = read_note(None, Some(&"wrong".to_string()), at(1001));
    assert_eq!(decision, absent);
}

#[test]
fn note_with_one_read_left_is_gone_after_it() {
    let mut store = Vec::new();
    let mut req = request("hello");
    req.delete_after_read = Some(1);
    let (note, _) = create(&mut store, &req, None, at(1000));

    match read(&mut store, &note.id, None, at(1001)) {
        ReadReply::Content(reply) => {
            assert_eq!(reply.content, "hello");
            assert_eq!(reply.request_left, Some(0));
        }
        other => panic!("unexpected reply: {:?}", other),
    }
    assert!(store.is_empty());
    assert_eq!(read(&mut store, &note.id, None, at(1002)), ReadReply::NotFound);
}

#[test]
fn reads_are_counted_down_to_the_last() {
    let mut store = Vec::new();
    let mut req = request("hello");
    req.delete_after_read = Some(3);
    let (note, _) = create(&mut store, &req, None, at(1000));
    let mut left = Vec::new();
    for _ in 0..3 {
        match read(&mut store, &note.id, None, at(1001)) {
            ReadReply::Content(reply) => left.push(reply.request_left),
            other => panic!("unexpected reply: {:?}", other),
        }
    }
    assert_eq!(left, vec![Some(2), Some(1), Some(0)]);
    assert_eq!(read(&mut store, &note.id, None, at(1001)), ReadReply::NotFound);
}

#[test]
fn read_decides_the_count_exactly() {
    let mut note = request("hello").prepare(at(1)).unwrap().with_id("n".to_string());
    note.delete_after_read = Some(2);
    assert_eq!(read_note(Some(&note), None, at(2)).action, StoreAction::SetReadsLeft(1));
    note.delete_after_read = Some(i32::MAX);
    assert_eq!(read_note(Some(&note), None, at(2)).action, StoreAction::SetReadsLeft(i32::MAX - 1));
    note.delete_after_read = Some(1);
    assert_eq!(read_note(Some(&note), None, at(2)).action, StoreAction::Delete);
    note.delete_after_read = Some(0);
    assert_eq!(
        read_note(Some(&note), None, at(2)),
        ReadDecision { reply: ReadReply::NotFound, action: StoreAction::Delete }
    );
    note.delete_after_read = Some(-5);
    assert_eq!(
        read_note(Some(&note), None, at(2)),
        ReadDecision { reply: ReadReply::NotFound, action: StoreAction::Delete }
    );
    note.delete_after_read = None;
    assert_eq!(read_note(Some(&note), None, at(2)).action, StoreAction::Nothing);
}

#[test]
fn expired_note_is_removed_by_a_read() {
    let mut store = Vec::new();
    let mut req = request("hello");
    req.lifetime_in_secs = Some(31);
    let (note, _) = create(&mut store, &req, None, at(1000));
    assert_eq!(note.expires_at, Some(at(1031)));

    // One second past the expiry.
    assert_eq!(read(&mut store, &note.id, None, at(1032)), ReadReply::NotFound);
    assert!(store.is_empty());
    assert_eq!(read(&mut store, &note.id, None, at(1033)), ReadReply::NotFound);
}

#[test]
fn expired_note_is_removed_by_a_look_at_its_public_side() {
    let note = NoteInfo {
        id: "abc123".to_string(),
        title: None,
        backend_encryption: false,
        frontend_encryption: false,
        created_at: at(1000),
        expires_at: Some(at(1031)),
        delete_after_read: None,
        allow_delete_with_passphrase: false,
    };
    let early = info_note(Some(note.clone()), at(1030));
    assert_eq!(early.reply, InfoReply::Info(note.clone()));
    assert_eq!(early.action, StoreAction::Nothing);
    let due = info_note(Some(note.clone()), at(1031));
    assert_eq!(due.reply, InfoReply::NotFound);
    assert_eq!(due.action, StoreAction::Delete);
    let none = info_note(None, at(1031));
    assert_eq!(none.reply, InfoReply::NotFound);
    assert_eq!(none.action, StoreAction::Nothing);
}

#[test]
fn expired_note_is_removed_by_a_sweep() {
    let mut store = Vec::new();
    let mut short = request("short");
    short.lifetime_in_secs = Some(31);
    let mut long = request("long");
    long.lifetime_in_secs = Some(3600);
    let (a, _) = create(&mut store, &short, None, at(1000));
    let (b, _) = create(&mut store, &long, None, at(1000));
    let (c, _) = create(&mut store, &request("forever"), None, at(1000));

    let infos: Vec<NoteInfo> = store.iter().map(|n| n.info()).collect();
    assert_eq!(sweep(&infos, at(1030)), Vec::<String>::new());
    let due = sweep(&infos, at(1032));
    assert_eq!(due, vec![a.id.clone()]);
    for id in &due {
        apply(&mut store, id, StoreAction::Delete);
    }
    assert_eq!(read(&mut store, &a.id, None, at(1032)), ReadReply::NotFound);
    assert!(matches!(read(&mut store, &b.id, None, at(1032)), ReadReply::Content(_)));
    assert!(matches!(read(&mut store, &c.id, None, at(1032)), ReadReply::Content(_)));
    let infos: Vec<NoteInfo> = store.iter().map(|n| n.info()).collect();
    assert_eq!(sweep(&infos, at(1_000_000)), vec![b.id.clone()]);
}

#[test]
fn read_expires_exactly_at_the_expiry() {
    let mut note = request("hello").prepare(at(1)).unwrap().with_id("n".to_string());
    note.expires_at = Some(Timestamp::new(50, 7));
    assert!(matches!(read_note(Some(&note), None, Timestamp::new(50, 6)).reply, ReadReply::Content(_)));
    assert_eq!(
        read_note(Some(&note), None, Timestamp::new(50, 7)),
        ReadDecision { reply: ReadReply::NotFound, action: StoreAction::Delete }
    );
}

#[test]
fn store_failure_turns_a_read_into_an_error() {
    let mut note = request("hello").prepare(at(1)).unwrap().with_id("n".to_string());
    note.delete_after_read = Some(2);
    let decision = read_note(Some(&note), None, at(2));
    assert_eq!(settle_read(decision.clone(), false), ReadReply::Failed(ServerError::DieselError));
    assert!(matches!(settle_read(decision, true), ReadReply::Content(_)));
    note.delete_after_read = None;
    let untouched = read_note(Some(&note), None, at(2));
    assert!(matches!(settle_read(untouched, false), ReadReply::Content(_)));
}

#[test]
fn read_reports_content_that_is_not_text() {
    let mut note = request("hello").prepare(at(1)).unwrap().with_id("n".to_string());
    note.content = vec![0xff];
    assert_eq!(
        read_note(Some(&note), None, at(2)),
        ReadDecision { reply: ReadReply::Failed(ServerError::Default), action: StoreAction::Nothing }
    );
}

#[test]
fn old_claim_does_not_delete_a_note_that_reuses_the_identifier() {
    let mut store = Vec::new();
    let mut req = request("first");
    req.id = Some("mine".to_string());
    let (first, old_claims) = create(&mut store, &req, None, at(1000));
    assert_eq!(first.id, "mine");

    let found = find(&store, "mine");
    let decision = delete_note(found.as_ref(), Some(&old_claims), None);
    assert_eq!(decision.action, StoreAction::Delete);
    apply(&mut store, "mine", decision.action);
    assert!(store.is_empty());

    let mut again = request("second");
    again.id = Some("mine".to_string());
    let (second, new_claims) = create(&mut store, &again, None, at(2000));
    assert_eq!(second.id, "mine");
    assert_ne!(second.created_at, first.created_at);

    let found = find(&store, "mine");
    let refused = delete_note(found.as_ref(), Some(&old_claims), None);
    assert_eq!(refused.reply, DeleteReply::Unauthorized);
    assert_eq!(refused.action, StoreAction::Nothing);
    assert_eq!(store.len(), 1);

    let allowed = delete_note(found.as_ref(), Some(&new_claims), None);
    assert_eq!(allowed.action, StoreAction::Delete);
}

#[test]
fn delete_by_token_hands_back_the_token_without_the_claim() {
    let mut store = Vec::new();
    let (a, claims) = create(&mut store, &request("a"), None, at(1000));
    let (b, claims) = create(&mut store, &request("b"), Some(&claims), at(1001));
    assert_eq!(claims.ids, vec![(a.id.clone(), at(1000)), (b.id.clone(), at(1001))]);

    let found = find(&store, &a.id);
    let decision = delete_note(found.as_ref(), Some(&claims), None);
    assert_eq!(decision.action, StoreAction::Delete);
    match settle_delete(decision, true) {
        DeleteReply::Deleted { id, claims: Some(rest) } => {
            assert_eq!(id, a.id);
            assert_eq!(rest.ids, vec![(b.id.clone(), at(1001))]);
            assert_eq!(rest.iat, claims.iat);
            assert_eq!(rest.sub, claims.sub);
        }
        other => panic!("unexpected reply: {:?}", other),
    }
}

#[test]
fn delete_by_passphrase_needs_the_note_to_allow_it() {
    let mut store = Vec::new();
    let mut req = request("hello");
    req.passphrase = Some("secret1".to_string());
    let (closed, _) = create(&mut store, &req, None, at(1000));
    req.allow_delete_with_passphrase = Some(true);
    let (open, _) = create(&mut store, &req, None, at(1000));
    let pass = "secret1".to_string();
    let wrong = "secret2".to_string();

    let refused = delete_note(Some(&closed), None, Some(&pass));
    assert_eq!(refused.reply, DeleteReply::Unauthorized);
    assert_eq!(refused.action, StoreAction::Nothing);

    let wrong_pass = delete_note(Some(&open), None, Some(&wrong));
    assert_eq!(wrong_pass.reply, DeleteReply::Unauthorized);

    let allowed = delete_note(Some(&open), None, Some(&pass));
    assert_eq!(allowed.reply, DeleteReply::Deleted { id: open.id.clone(), claims: None });
    assert_eq!(allowed.action, StoreAction::Delete);
}

#[test]
fn delete_tries_the_passphrase_after_a_token_that_does_not_fit() {
    let mut store = Vec::new();
    let mut req = request("hello");
    req.passphrase = Some("secret1".to_string());
    req.allow_delete_with_passphrase = Some(true);
    let (note, _) = create(&mut store, &req, None, at(1000));
    let other = Claims::new(vec![("other".to_string(), at(5))], at(5), "p".to_string()).unwrap();
    let decision = delete_note(Some(&note), Some(&other), Some(&"secret1".to_string()));
    assert_eq!(decision.reply, DeleteReply::Deleted { id: note.id.clone(), claims: None });
}

#[test]
fn delete_without_credentials_is_refused() {
    let mut store = Vec::new();
    let (note, _) = create(&mut store, &request("hello"), None, at(1000));
    assert!(presents_nothing(false, false));
    assert!(!presents_nothing(true, false));
    assert!(!presents_nothing(false, true));
    let decision = delete_note(Some(&note), None, None);
    assert_eq!(decision.reply, DeleteReply::Unauthorized);
    assert_eq!(decision.action, StoreAction::Nothing);
}

#[test]
fn delete_of_a_missing_note_looks_like_a_refusal() {
    let claims = Claims::new(vec![("gone".to_string(), at(5))], at(5), "p".to_string()).unwrap();
    let decision = delete_note(None, Some(&claims), Some(&"secret1".to_string()));
    assert_eq!(decision.reply, DeleteReply::Unauthorized);
    assert_eq!(decision.action, StoreAction::Nothing);
}

#[test]
fn store_failure_turns_a_delete_into_an_error() {
    let mut store = Vec::new();
    let (note, claims) = create(&mut store, &request("hello"), None, at(1000));
    let decision = delete_note(Some(&note), Some(&claims), None);
    assert_eq!(settle_delete(decision, false), DeleteReply::Failed(ServerError::DieselError));
    let refused = delete_note(Some(&note), None, None);
    assert_eq!(settle_delete(refused, false), DeleteReply::Unauthorized);
}

#[test]
fn wished_identifier_in_use_is_reported_and_not_replaced() {
    let mut store = Vec::new();
    let mut req = request("first");
    req.id = Some("mine".to_string());
    create(&mut store, &req, None, at(1000));

    let plan = plan_create(&req, at(1001)).unwrap();
    let note = plan.draft.with_id(next_candidate(&plan.source));
    assert_eq!(note.id, "mine");
    let outcome = insert(&mut store, note);
    assert_eq!(outcome, InsertOutcome::Conflict);
    assert_eq!(
        after_insert(&plan.source, outcome),
        AllocationStep::Refused(ServerError::IdentifierTaken)
    );
    assert_eq!(store.len(), 1);
}

#[test]
fn plan_create_refuses_an_invalid_request() {
    let mut req = request("hello");
    req.passphrase = Some("abc".to_string());
    assert_eq!(plan_create(&req, at(1)).unwrap_err(), req.validate(at(1)).unwrap_err());
}

#[test]
fn note_without_token_is_removed_again() {
    let mut store = Vec::new();
    let (note, _) = create(&mut store, &request("hello"), None, at(1000));

    match after_signing(&note, Err(ServerError::JWTError)) {
        TokenStep::Undo { id, cause } => {
            assert_eq!(id, note.id);
            assert_eq!(cause, ServerError::JWTError);
            let undone = apply(&mut store, &id, StoreAction::Delete);
            assert!(store.is_empty());
            assert_eq!(after_undo(id, cause, undone), ServerError::JWTError);
        }
        other => panic!("unexpected step: {:?}", other),
    }
}

#[test]
fn failed_removal_is_reported_as_an_orphan() {
    assert_eq!(
        after_undo("abc123".to_string(), ServerError::JWTError, false),
        ServerError::OrphanedNote("abc123".to_string())
    );
}

#[test]
fn signed_token_is_handed_out_with_the_public_side() {
    let mut store = Vec::new();
    let mut req = request("hello");
    req.passphrase = Some("secret1".to_string());
    let (note, _) = create(&mut store, &req, None, at(1000));
    match after_signing(&note, Ok("a.b.c".to_string())) {
        TokenStep::Reply(created) => {
            assert_eq!(created.token, "a.b.c");
            assert_eq!(created.note, note.info());
            assert!(created.note.backend_encryption);
        }
        other => panic!("unexpected step: {:?}", other),
    }
}

#[test]
fn sealed_note_is_always_created_for_a_valid_request() {
    let mut req = request("hello");
    req.passphrase = Some("secret1".to_string());
    req.lifetime_in_secs = Some(60);
    for _ in 0..5 {
        let plan = plan_create(&req, at(1000)).unwrap();
        assert!(plan.draft.backend_encryption);
        assert_ne!(plan.draft.content, b"hello".to_vec());
    }
}

#[test]
fn token_of_a_new_note_drops_the_stale_claim_for_its_identifier() {
    let mut store = Vec::new();
    let mut req = request("first");
    req.id = Some("mine".to_string());
    let (_, old_claims) = create(&mut store, &req, None, at(1000));
    apply(&mut store, "mine", StoreAction::Delete);
    let (second, new_claims) = create(&mut store, &req, Some(&old_claims), at(2000));
    assert_eq!(new_claims.ids, vec![("mine".to_string(), at(2000))]);
    assert!(new_claims.is_wf());
    assert!(authorize_delete(Some(&new_claims), &second.id, second.created_at));
}

#[test]
fn refresh_keeps_drops_or_fails_by_what_the_store_answers() {
    let token = Claims::new(
        vec![
            ("kept".to_string(), at(1)),
            ("gone".to_string(), at(2)),
            ("reused".to_string(), at(3)),
        ],
        at(5),
        "p".to_string(),
    )
    .unwrap();
    let mut live = Vec::new();
    assert_eq!(record_lookup(&mut live, &"kept".to_string(), Lookup::Found(at(1))), Ok(()));
    assert_eq!(record_lookup(&mut live, &"gone".to_string(), Lookup::Missing), Ok(()));
    assert_eq!(record_lookup(&mut live, &"reused".to_string(), Lookup::Found(at(30))), Ok(()));
    assert_eq!(live, vec![("kept".to_string(), at(1)), ("reused".to_string(), at(30))]);
    let refreshed = token.prune(&live, at(9), "peer");
    assert_eq!(refreshed.ids, vec![("kept".to_string(), at(1))]);

    let before = live.clone();
    assert_eq!(
        record_lookup(&mut live, &"kept".to_string(), Lookup::Failed),
        Err(ServerError::DieselError)
    );
    assert_eq!(live, before);
}
