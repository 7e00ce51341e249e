//! Deleting a note on proof of ownership or of knowledge of its passphrase.

use vstd::prelude::*;
use vstd::utf8::encode_utf8;
use crate::claims::{
    authorize_delete, authorizes, lemma_stale_claim_authorizes_nothing, without, Claims,
    ClaimsView,
};
use crate::errors::ServerError;
use crate::lifecycle::read::{found_view, passphrase_view};
use crate::lifecycle::{applied, lookup, StoreAction, StoreView};
use crate::note::{QueryNote, QueryNoteView};
use crate::sealing::{open, open_outcome};
use crate::time::Timestamp;

verus! {

/// The reply to a request to delete a note.
#[derive(Clone, Debug, PartialEq, Eq)]
pub enum DeleteReply {
    /// Nothing that the caller presented authorizes the deletion, or there is
    /// no such note.
    Unauthorized,
    /// The note is to be deleted. Where a token authorized it, `claims` holds
    /// the token's content without the claim that was used.
    Deleted { id: String, claims: Option<Claims> },
    /// The deletion could not be served.
    Failed(ServerError),
}

/// `DeleteReply` as a mathematical value.
pub enum DeleteReplyView {
    Unauthorized,
    Deleted { id: Seq<char>, claims: Option<ClaimsView> },
    Failed(ServerError),
}

impl View for DeleteReply {
    type V = DeleteReplyView;

    open spec fn view(&self) -> DeleteReplyView {
        match *self {
            DeleteReply::Unauthorized => DeleteReplyView::Unauthorized,
            DeleteReply::Deleted { id, claims } => DeleteReplyView::Deleted {
                id: id@,
                claims: match claims {
                    Some(c) => Some(c@),
                    None => None,
                },
            },
            DeleteReply::Failed(e) => DeleteReplyView::Failed(e),
        }
    }
}

/// A reply together with what the store is to do.
#[derive(Clone, Debug, PartialEq, Eq)]
pub struct DeleteDecision {
    pub reply: DeleteReply,
    pub action: StoreAction,
}

/// Whether the claims of a verified token prove ownership of the note.
pub open spec fn token_authorizes(verified: Option<ClaimsView>, note: QueryNoteView) -> bool {
    verified matches Some(claims) && authorizes(claims.ids, note.id, note.created_at)
}

/// Whether the passphrase proves knowledge of the note's content: the note
/// must allow deletion by passphrase, and the passphrase must open it.
pub open spec fn passphrase_authorizes(passphrase: Option<Seq<char>>, note: QueryNoteView) -> bool {
    note.allow_delete_with_passphrase && (passphrase matches Some(p) && open_outcome(
        encode_utf8(p),
        note.content,
    ) is Ok)
}

/// What a request to delete gives.
///
/// The token is tried first, then the passphrase. Where the token authorizes
/// the deletion, the claim that did so leaves the token. A missing note is
/// answered like one that the caller may not delete.
pub open spec fn delete_outcome(
    found: Option<QueryNoteView>,
    verified: Option<ClaimsView>,
    passphrase: Option<Seq<char>>,
) -> (DeleteReplyView, StoreAction) {
    match found {
        None => (DeleteReplyView::Unauthorized, StoreAction::Nothing),
        Some(note) => {
            if token_authorizes(verified, note) {
                (
                    DeleteReplyView::Deleted {
                        id: note.id,
                        claims: Some(
                            ClaimsView {
                                ids: without(verified.unwrap().ids, (note.id, note.created_at)),
                                iat: verified.unwrap().iat,
                                sub: verified.unwrap().sub,
                            },
                        ),
                    },
                    StoreAction::Delete,
                )
            } else if passphrase_authorizes(passphrase, note) {
                (DeleteReplyView::Deleted { id: note.id, claims: None }, StoreAction::Delete)
            } else {
                (DeleteReplyView::Unauthorized, StoreAction::Nothing)
            }
        },
    }
}

/// The reply once the store has done what it was asked.
pub open spec fn settled(reply: DeleteReplyView, action: StoreAction, store_ok: bool) -> DeleteReplyView {
    if action != StoreAction::Nothing && !store_ok {
        DeleteReplyView::Failed(ServerError::DieselError)
    } else {
        reply
    }
}

/// The view of claims that may be missing.
pub open spec fn verified_view(verified: Option<&Claims>) -> Option<ClaimsView> {
    match verified {
        Some(claims) => Some(claims@),
        None => None,
    }
}

/// Whether a request that presents neither token nor passphrase can be
/// refused without looking the note up.
pub fn presents_nothing(has_token: bool, has_passphrase: bool) -> (b: bool)
    ensures
        b == (!has_token && !has_passphrase),
{
    !has_token && !has_passphrase
}

/// Decides a request to delete a note.
///
/// `found` is what the store holds under the identifier that the request
/// names; `verified` the claims of the request's token, where it carries one
/// and the signature is good; `passphrase` what the request presents.
pub fn delete_note(
    found: Option<&QueryNote>,
    verified: Option<&Claims>,
    passphrase: Option<&String>,
) -> (decision: DeleteDecision)
    ensures
        (decision.reply@, decision.action) == delete_outcome(
            found_view(found),
            verified_view(verified),
            passphrase_view(passphrase),
        ),
{
    let note = match found {
        Some(note) => note,
        None => {
            return DeleteDecision { reply: DeleteReply::Unauthorized, action: StoreAction::Nothing };
        },
    };
    if authorize_delete(verified, &note.id, note.created_at) {
        let claims = match verified {
            Some(claims) => claims,
            None => {
                return DeleteDecision {
                    reply: DeleteReply::Unauthorized,
                    action: StoreAction::Nothing,
                };
            },
        };
        let rest = claims.without_claim(&note.id, note.created_at);
        return DeleteDecision {
            reply: DeleteReply::Deleted { id: note.id.clone(), claims: Some(rest) },
            action: StoreAction::Delete,
        };
    }
    if note.allow_delete_with_passphrase {
        match passphrase {
            Some(p) => {
                if open(p.as_str(), note.content.as_slice()).is_ok() {
                    return DeleteDecision {
                        reply: DeleteReply::Deleted { id: note.id.clone(), claims: None },
                        action: StoreAction::Delete,
                    };
                }
            },
            None => {},
        }
    }
    DeleteDecision { reply: DeleteReply::Unauthorized, action: StoreAction::Nothing }
}

/// The reply to send once the store has done what the decision asked for.
pub fn settle_delete(decision: DeleteDecision, store_ok: bool) -> (reply: DeleteReply)
    ensures
        reply@ == settled(decision.reply@, decision.action, store_ok),
{
    match decision.action {
        StoreAction::Nothing => decision.reply,
        _ => if store_ok {
            decision.reply
        } else {
            DeleteReply::Failed(ServerError::DieselError)
        },
    }
}

/// Without a verified token and without a passphrase nothing is deleted,
/// whatever the store holds.
pub proof fn lemma_no_credentials_delete_nothing(found: Option<QueryNoteView>)
    ensures
        delete_outcome(found, None, None) == (
            DeleteReplyView::Unauthorized,
            StoreAction::Nothing,
        ),
{
}

/// A note is deleted only where a claim for exactly its identifier and its
/// creation instant is presented, or its passphrase where the note allows that.
pub proof fn lemma_delete_needs_proof(
    found: Option<QueryNoteView>,
    verified: Option<ClaimsView>,
    passphrase: Option<Seq<char>>,
)
    requires
        delete_outcome(found, verified, passphrase).1 == StoreAction::Delete,
    ensures
        found matches Some(note) && (token_authorizes(verified, note) || passphrase_authorizes(
            passphrase,
            note,
        )),
{
}

/// A token whose claims for an identifier all name an earlier creation does
/// not delete the note that holds the identifier now.
pub proof fn lemma_reused_identifier_is_not_deleted(
    note: QueryNoteView,
    claims: ClaimsView,
    old_stamp: Timestamp,
)
    requires
        note.created_at != old_stamp,
        forall|i: int|
            0 <= i < claims.ids.len() && (#[trigger] claims.ids[i]).0 == note.id ==> claims.ids[i].1
                == old_stamp,
    ensures
        delete_outcome(Some(note), Some(claims), None) == (
            DeleteReplyView::Unauthorized,
            StoreAction::Nothing,
        ),
{
    lemma_stale_claim_authorizes_nothing(claims.ids, note.id, old_stamp, note.created_at);
}

/// Once a note has been deleted, the claim that deleted it is worth nothing:
/// the same request, sent again, is refused.
pub proof fn lemma_deleted_note_cannot_be_deleted_again(
    store: StoreView,
    id: Seq<char>,
    verified: Option<ClaimsView>,
    passphrase: Option<Seq<char>>,
)
    requires
        delete_outcome(lookup(store, id), verified, passphrase).1 == StoreAction::Delete,
    ensures
        delete_outcome(
            lookup(applied(store, id, StoreAction::Delete), id),
            verified,
            passphrase,
        ) == (DeleteReplyView::Unauthorized, StoreAction::Nothing),
{
}

/// A request that is refused leaves the store exactly as it was.
pub proof fn lemma_refused_delete_changes_nothing(
    store: StoreView,
    id: Seq<char>,
    verified: Option<ClaimsView>,
    passphrase: Option<Seq<char>>,
)
    requires
        delete_outcome(lookup(store, id), verified, passphrase).0 is Unauthorized,
    ensures
        applied(store, id, delete_outcome(lookup(store, id), verified, passphrase).1) == store,
{
}

} // verus!
