//! Reading a note, and looking at what is public of it.

use vstd::prelude::*;
use vstd::utf8::encode_utf8;
use crate::errors::ServerError;
use crate::lifecycle::{applied, lookup, StoreAction, StoreView};
use crate::note::{
    decrypt_outcome, expired, is_expired, NoteInfo, NoteInfoView, QueryNote, QueryNoteView,
    ResNote, ResNoteView,
};
use crate::sealing::open_outcome;
use crate::time::Timestamp;

verus! {

/// The reply to a read.
#[derive(Clone, Debug, PartialEq, Eq)]
pub enum ReadReply {
    /// There is no such note, or the caller may not know that there is.
    NotFound,
    /// The note, with its content as text.
    Content(ResNote),
    /// The read could not be served.
    Failed(ServerError),
}

/// `ReadReply` as a mathematical value.
pub enum ReadReplyView {
    NotFound,
    Content(ResNoteView),
    Failed(ServerError),
}

impl View for ReadReply {
    type V = ReadReplyView;

    open spec fn view(&self) -> ReadReplyView {
        match *self {
            ReadReply::NotFound => ReadReplyView::NotFound,
            ReadReply::Content(note) => ReadReplyView::Content(note@),
            ReadReply::Failed(e) => ReadReplyView::Failed(e),
        }
    }
}

/// A reply together with what the store is to do.
#[derive(Clone, Debug, PartialEq, Eq)]
pub struct ReadDecision {
    pub reply: ReadReply,
    pub action: StoreAction,
}

/// The reply to a look at a note's public side.
#[derive(Clone, Debug, PartialEq, Eq)]
pub enum InfoReply {
    NotFound,
    Info(NoteInfo),
}

/// `InfoReply` as a mathematical value.
pub enum InfoReplyView {
    NotFound,
    Info(NoteInfoView),
}

impl View for InfoReply {
    type V = InfoReplyView;

    open spec fn view(&self) -> InfoReplyView {
        match *self {
            InfoReply::NotFound => InfoReplyView::NotFound,
            InfoReply::Info(note) => InfoReplyView::Info(note@),
        }
    }
}

/// A reply together with what the store is to do.
#[derive(Clone, Debug, PartialEq, Eq)]
pub struct InfoDecision {
    pub reply: InfoReply,
    pub action: StoreAction,
}

/// The passphrase that a request presents, the empty one where it presents
/// none.
pub open spec fn presented(passphrase: Option<Seq<char>>) -> Seq<char> {
    match passphrase {
        Some(p) => p,
        None => Seq::<char>::empty(),
    }
}

/// What a successful read does to a note whose reads are counted.
///
/// With two or more reads left the count goes down by one. The last read
/// removes the note and still hands out the content. A note with no read left
/// is dead: it is removed and reported as not found.
pub open spec fn count_read(reply: ResNoteView, reads_left: Option<i32>) -> (
    ReadReplyView,
    StoreAction,
) {
    match reads_left {
        None => (ReadReplyView::Content(reply), StoreAction::Nothing),
        Some(n) => {
            if n >= 2 {
                (
                    ReadReplyView::Content(
                        ResNoteView { request_left: Some((n - 1) as i32), ..reply },
                    ),
                    StoreAction::SetReadsLeft((n - 1) as i32),
                )
            } else if n == 1 {
                (
                    ReadReplyView::Content(ResNoteView { request_left: Some(0i32), ..reply }),
                    StoreAction::Delete,
                )
            } else {
                (ReadReplyView::NotFound, StoreAction::Delete)
            }
        },
    }
}

/// What a read gives, and what the store is to do.
///
/// A note that is missing is not found. A note whose expiry has been reached
/// is removed and not found. A sealed note that the passphrase does not open
/// is not found either, and the store is left alone. Otherwise the reads are
/// counted as `count_read` says.
pub open spec fn read_outcome(
    found: Option<QueryNoteView>,
    passphrase: Option<Seq<char>>,
    now: Timestamp,
) -> (ReadReplyView, StoreAction) {
    match found {
        None => (ReadReplyView::NotFound, StoreAction::Nothing),
        Some(note) => {
            if expired(note.expires_at, now) {
                (ReadReplyView::NotFound, StoreAction::Delete)
            } else {
                match decrypt_outcome(note, presented(passphrase)) {
                    Ok(reply) => count_read(reply, note.delete_after_read),
                    Err(ServerError::InvalidCredentials) => (
                        ReadReplyView::NotFound,
                        StoreAction::Nothing,
                    ),
                    Err(e) => (ReadReplyView::Failed(e), StoreAction::Nothing),
                }
            }
        },
    }
}

/// The reply once the store has done what it was asked: the decided reply,
/// unless there was something to do and the store failed at it.
pub open spec fn settled(reply: ReadReplyView, action: StoreAction, store_ok: bool) -> ReadReplyView {
    if action != StoreAction::Nothing && !store_ok {
        ReadReplyView::Failed(ServerError::DieselError)
    } else {
        reply
    }
}

/// What a look at a note's public side gives: the note, unless it is missing
/// or its expiry has been reached, in which case it is removed.
pub open spec fn info_outcome(found: Option<NoteInfoView>, now: Timestamp) -> (
    InfoReplyView,
    StoreAction,
) {
    match found {
        None => (InfoReplyView::NotFound, StoreAction::Nothing),
        Some(note) => {
            if expired(note.expires_at, now) {
                (InfoReplyView::NotFound, StoreAction::Delete)
            } else {
                (InfoReplyView::Info(note), StoreAction::Nothing)
            }
        },
    }
}

/// The view of a note that may be missing.
pub open spec fn found_view(found: Option<&QueryNote>) -> Option<QueryNoteView> {
    match found {
        Some(note) => Some(note@),
        None => None,
    }
}

/// The characters of a passphrase that may be missing.
pub open spec fn passphrase_view(passphrase: Option<&String>) -> Option<Seq<char>> {
    match passphrase {
        Some(p) => Some(p@),
        None => None,
    }
}

/// Counts a successful read.
fn counted(reply: ResNote, reads_left: Option<i32>) -> (decision: ReadDecision)
    ensures
        (decision.reply@, decision.action) == count_read(reply@, reads_left),
{
    match reads_left {
        None => ReadDecision { reply: ReadReply::Content(reply), action: StoreAction::Nothing },
        Some(n) => {
            if n >= 2 {
                let mut reply = reply;
                reply.request_left = Some(n - 1);
                ReadDecision {
                    reply: ReadReply::Content(reply),
                    action: StoreAction::SetReadsLeft(n - 1),
                }
            } else if n == 1 {
                let mut reply = reply;
                reply.request_left = Some(0);
                ReadDecision { reply: ReadReply::Content(reply), action: StoreAction::Delete }
            } else {
                ReadDecision { reply: ReadReply::NotFound, action: StoreAction::Delete }
            }
        },
    }
}

/// Decides a read.
///
/// `found` is what the store holds under the identifier that the request
/// names, `passphrase` what the request presents, `now` the time of the
/// request.
pub fn read_note(found: Option<&QueryNote>, passphrase: Option<&String>, now: Timestamp) -> (decision:
    ReadDecision)
    ensures
        (decision.reply@, decision.action) == read_outcome(
            found_view(found),
            passphrase_view(passphrase),
            now,
        ),
{
    let note = match found {
        Some(note) => note,
        None => {
            return ReadDecision { reply: ReadReply::NotFound, action: StoreAction::Nothing };
        },
    };
    if is_expired(note.expires_at, now) {
        return ReadDecision { reply: ReadReply::NotFound, action: StoreAction::Delete };
    }
    let none = String::new();
    let presented = match passphrase {
        Some(p) => p,
        None => &none,
    };
    match note.try_decrypt(presented) {
        Ok(reply) => counted(reply, note.delete_after_read),
        Err(ServerError::InvalidCredentials) => ReadDecision {
            reply: ReadReply::NotFound,
            action: StoreAction::Nothing,
        },
        Err(e) => ReadDecision { reply: ReadReply::Failed(e), action: StoreAction::Nothing },
    }
}

/// The reply to send once the store has done what the decision asked for.
pub fn settle_read(decision: ReadDecision, store_ok: bool) -> (reply: ReadReply)
    ensures
        reply@ == settled(decision.reply@, decision.action, store_ok),
{
    match decision.action {
        StoreAction::Nothing => decision.reply,
        _ => if store_ok {
            decision.reply
        } else {
            ReadReply::Failed(ServerError::DieselError)
        },
    }
}

/// Decides a look at a note's public side.
pub fn info_note(found: Option<NoteInfo>, now: Timestamp) -> (decision: InfoDecision)
    ensures
        (decision.reply@, decision.action) == info_outcome(
            match found {
                Some(note) => Some(note@),
                None => None,
            },
            now,
        ),
{
    match found {
        None => InfoDecision { reply: InfoReply::NotFound, action: StoreAction::Nothing },
        Some(note) => {
            if is_expired(note.expires_at, now) {
                InfoDecision { reply: InfoReply::NotFound, action: StoreAction::Delete }
            } else {
                InfoDecision { reply: InfoReply::Info(note), action: StoreAction::Nothing }
            }
        },
    }
}

/// A sealed note that the presented passphrase does not open is answered
/// exactly like a note that does not exist, and the store is left alone in
/// both cases.
pub proof fn lemma_wrong_passphrase_reads_as_missing(
    note: QueryNoteView,
    passphrase: Option<Seq<char>>,
    now: Timestamp,
)
    requires
        note.backend_encryption,
        !expired(note.expires_at, now),
        open_outcome(encode_utf8(presented(passphrase)), note.content) is Err,
    ensures
        read_outcome(Some(note), passphrase, now) == read_outcome(None, passphrase, now),
{
}

/// A note whose expiry has been reached is removed and not found, whatever
/// the caller presents.
pub proof fn lemma_expired_note_is_gone(
    note: QueryNoteView,
    passphrase: Option<Seq<char>>,
    now: Timestamp,
)
    requires
        expired(note.expires_at, now),
    ensures
        read_outcome(Some(note), passphrase, now) == (
            ReadReplyView::NotFound,
            StoreAction::Delete,
        ),
        info_outcome(Some(note.info()), now) == (InfoReplyView::NotFound, StoreAction::Delete),
{
}

/// The read that uses up a note's last permitted read hands out the content
/// and removes the note; a read never leaves a count below one behind.
pub proof fn lemma_last_read_removes_note(reply: ResNoteView, reads_left: i32)
    ensures
        reads_left == 1 ==> count_read(reply, Some(reads_left)).1 == StoreAction::Delete
            && count_read(reply, Some(reads_left)).0 is Content,
        count_read(reply, Some(reads_left)).1 matches StoreAction::SetReadsLeft(n) ==> n >= 1 && n
            == reads_left - 1,
        reads_left <= 0 ==> count_read(reply, Some(reads_left)) == (
            ReadReplyView::NotFound,
            StoreAction::Delete,
        ),
{
}

/// Content is handed out only for a note that exists and has not expired.
pub proof fn lemma_content_needs_live_note(
    found: Option<QueryNoteView>,
    passphrase: Option<Seq<char>>,
    now: Timestamp,
)
    requires
        read_outcome(found, passphrase, now).0 is Content,
    ensures
        found matches Some(note) && !expired(note.expires_at, now) && decrypt_outcome(
            note,
            presented(passphrase),
        ) is Ok,
{
}

/// After the read that uses up a note's last permitted read, the note is
/// gone: whoever reads it next, with whatever passphrase, finds nothing.
pub proof fn lemma_note_is_gone_after_its_last_read(
    store: StoreView,
    id: Seq<char>,
    passphrase: Option<Seq<char>>,
    now: Timestamp,
    next_passphrase: Option<Seq<char>>,
    later: Timestamp,
)
    requires
        store.contains_key(id),
        store[id].delete_after_read == Some(1i32),
        read_outcome(lookup(store, id), passphrase, now).0 is Content,
    ensures
        read_outcome(
            lookup(applied(store, id, read_outcome(lookup(store, id), passphrase, now).1), id),
            next_passphrase,
            later,
        ) == (ReadReplyView::NotFound, StoreAction::Nothing),
{
}

/// A read of a note whose expiry has been reached leaves no such note behind.
pub proof fn lemma_expired_note_is_removed_by_a_read(
    store: StoreView,
    id: Seq<char>,
    passphrase: Option<Seq<char>>,
    now: Timestamp,
)
    requires
        store.contains_key(id),
        expired(store[id].expires_at, now),
    ensures
        read_outcome(lookup(store, id), passphrase, now).0 is NotFound,
        lookup(applied(store, id, read_outcome(lookup(store, id), passphrase, now).1), id).is_none(),
{
}

/// A successful read of a note with more than one read left leaves the note
/// in the store with one read less, and changes nothing else of it.
pub proof fn lemma_read_counts_down(
    store: StoreView,
    id: Seq<char>,
    passphrase: Option<Seq<char>>,
    now: Timestamp,
    reads_left: i32,
)
    requires
        store.contains_key(id),
        store[id].delete_after_read == Some(reads_left),
        reads_left >= 2,
        read_outcome(lookup(store, id), passphrase, now).0 is Content,
    ensures
        lookup(applied(store, id, read_outcome(lookup(store, id), passphrase, now).1), id) == Some(
            QueryNoteView { delete_after_read: Some((reads_left - 1) as i32), ..store[id] },
        ),
{
}

/// A read that is refused, for a wrong passphrase or for any failure, leaves
/// the store exactly as it was.
pub proof fn lemma_refused_read_changes_nothing(
    store: StoreView,
    id: Seq<char>,
    passphrase: Option<Seq<char>>,
    now: Timestamp,
)
    requires
        store.contains_key(id),
        !expired(store[id].expires_at, now),
        decrypt_outcome(store[id], presented(passphrase)) is Err,
    ensures
        applied(store, id, read_outcome(lookup(store, id), passphrase, now).1) == store,
{
}

} // verus!
