//! Creating a note: from the request to a stored note with a token that
//! claims it.
//!
//! The steps come in a fixed order: validate, seal, choose an identifier,
//! store, sign. A note that is stored and cannot be given a token is removed
//! again, so that no note is left that nobody can prove to own.

use vstd::prelude::*;
use crate::claims::{authorizes, extended_with, Claims, ClaimView};
use crate::errors::ServerError;
use crate::ident::{id_source, source_of, IdSource};
use crate::lifecycle::{applied, StoreAction, StoreView};
use crate::note::{
    beyond_the_cipher, is_user_error, prepared, validation_outcome, NewNote, NoteDraft, NoteInfo, NoteInfoView,
    QueryNote, QueryNoteView,
};
use crate::time::Timestamp;

verus! {

/// A request that passed validation: the note to be, and where its
/// identifier comes from.
#[derive(Clone, Debug, PartialEq, Eq)]
pub struct CreatePlan {
    pub draft: NoteDraft,
    pub source: IdSource,
}

/// What the caller receives for a note that was created.
#[derive(Clone, Debug, PartialEq, Eq)]
pub struct Created {
    pub note: NoteInfo,
    pub token: String,
}

/// `Created` as a mathematical value.
pub struct CreatedView {
    pub note: NoteInfoView,
    pub token: Seq<char>,
}

impl View for Created {
    type V = CreatedView;

    open spec fn view(&self) -> CreatedView {
        CreatedView { note: self.note@, token: self.token@ }
    }
}

/// What follows the attempt to sign a token for a stored note.
#[derive(Clone, Debug, PartialEq, Eq)]
pub enum TokenStep {
    /// Answer the caller.
    Reply(Created),
    /// Remove the note again: no token could be signed, for this cause.
    Undo { id: String, cause: ServerError },
}

/// `TokenStep` as a mathematical value.
pub enum TokenStepView {
    Reply(CreatedView),
    Undo { id: Seq<char>, cause: ServerError },
}

impl View for TokenStep {
    type V = TokenStepView;

    open spec fn view(&self) -> TokenStepView {
        match *self {
            TokenStep::Reply(created) => TokenStepView::Reply(created@),
            TokenStep::Undo { id, cause } => TokenStepView::Undo { id: id@, cause },
        }
    }
}

/// The step that follows signing: the reply where a token was signed, the
/// removal of the note where none was.
pub open spec fn step_after_signing(
    note: NoteInfoView,
    signed: Result<Seq<char>, ServerError>,
) -> TokenStepView {
    match signed {
        Ok(token) => TokenStepView::Reply(CreatedView { note, token }),
        Err(cause) => TokenStepView::Undo { id: note.id, cause },
    }
}

/// Whether an error says that a note was left without an owner.
pub open spec fn is_orphan_error(e: ServerError, id: Seq<char>) -> bool {
    e matches ServerError::OrphanedNote(orphan) && orphan@ == id
}

/// Validates a request, seals its content where it has a passphrase, and
/// settles where the identifier comes from.
///
/// Every valid request gives a plan, but one that asks to seal more content
/// than the cipher takes in one piece.
pub fn plan_create(request: &NewNote, now: Timestamp) -> (r: Result<CreatePlan, ServerError>)
    ensures
        match validation_outcome(request@, now) {
            Err(faults) => r matches Err(e) && is_user_error(e, faults),
            Ok(expires_at) => if beyond_the_cipher(request@.passphrase, request@.content) {
                r == Err::<CreatePlan, ServerError>(ServerError::TinderCryptError)
            } else {
                r matches Ok(plan) && prepared(request@, expires_at, now, plan.draft@)
                    && plan.draft@.wf() && plan.source@ == source_of(request@.id)
            },
        },
{
    match request.prepare(now) {
        Ok(draft) => Ok(CreatePlan { draft, source: id_source(&request.id) }),
        Err(e) => Err(e),
    }
}

/// The claims of the token for a note that has just been stored: those of the
/// caller's token, where the caller presented one that verified, without
/// what it claimed for the note's identifier before, and the claim for the
/// new note at the end.
pub fn claims_for_note(
    verified: Option<&Claims>,
    note: &QueryNote,
    now: Timestamp,
    subject: &str,
) -> (claims: Claims)
    ensures
        claims@.ids == extended_with(
            match verified {
                Some(held) => held@.ids,
                None => Seq::<ClaimView>::empty(),
            },
            note.id@,
            note.created_at,
        ),
        authorizes(claims@.ids, note.id@, note.created_at),
        (verified matches Some(held) ==> held@.wf()) ==> claims@.wf(),
        claims.iat == now,
        claims.sub@ == subject@,
{
    Claims::extended(verified, &note.id, note.created_at, now, subject)
}

/// Decides what follows the attempt to sign the token for a stored note.
pub fn after_signing(note: &QueryNote, signed: Result<String, ServerError>) -> (step: TokenStep)
    ensures
        step@ == step_after_signing(
            note@.info(),
            match signed {
                Ok(token) => Ok(token@),
                Err(e) => Err(e),
            },
        ),
{
    match signed {
        Ok(token) => TokenStep::Reply(Created { note: note.info(), token }),
        Err(cause) => TokenStep::Undo { id: note.id.clone(), cause },
    }
}

/// The error to answer with once the note has been asked to be removed again:
/// the cause of the failed signing where the removal went through, and an
/// error of its own where it did not and the note is left without an owner.
pub fn after_undo(id: String, cause: ServerError, undone: bool) -> (e: ServerError)
    ensures
        undone ==> e == cause,
        !undone ==> is_orphan_error(e, id@),
{
    if undone {
        cause
    } else {
        ServerError::OrphanedNote(id)
    }
}

/// The caller is answered with a created note only where a token was signed;
/// where none was, the next step is always the removal of that very note.
pub proof fn lemma_no_reply_without_token(
    note: NoteInfoView,
    signed: Result<Seq<char>, ServerError>,
)
    ensures
        step_after_signing(note, signed) is Reply <==> signed is Ok,
        signed is Err ==> step_after_signing(note, signed) == (TokenStepView::Undo {
            id: note.id,
            cause: signed->Err_0,
        }),
{
}

/// Removing a note that could not be given a token puts the store back to
/// what it was before the note was stored: the failed creation leaves no trace.
pub proof fn lemma_undo_restores_the_store(store: StoreView, note: QueryNoteView)
    requires
        !store.contains_key(note.id),
    ensures
        applied(store.insert(note.id, note), note.id, StoreAction::Delete) == store,
{
    assert(store.insert(note.id, note).remove(note.id) =~= store);
}

} // verus!
