//! Notes: the stored record, what callers send and receive, and the rules by
//! which a request becomes a record and a record becomes a reply.

use vstd::prelude::*;
use vstd::slice::slice_to_vec;
use vstd::string::{StrSliceExecFns, StringSliceAdditionalSpecFns};
use vstd::utf8::encode_utf8;
use crate::errors::{CommonError, Fields, LogicFault, ServerError};
use crate::passphrase::{check_passphrase, policy_fault, within_policy, PassphraseFault};
use crate::sealing::{open, open_outcome, seal, SealError, MAX_CONTENT_LEN};
use crate::text::{text_from_bytes, text_of, trim_text, trimmed};
use crate::time::Timestamp;

verus! {

/// The shortest lifetime, in seconds, that is not accepted: a note lives
/// longer than this.
pub const LIFETIME_FLOOR_SECS: u64 = 30;

/// The longest lifetime, in seconds, that the note store can hold.
pub const LIFETIME_CEILING_SECS: u64 = 4_294_967_295;

/// A note as the store holds it.
#[derive(Clone, Debug, PartialEq, Eq)]
pub struct QueryNote {
    pub id: String,
    pub title: Option<String>,
    /// Plain UTF-8 text, or a sealed blob where `backend_encryption` is set.
    pub content: Vec<u8>,
    pub discoverable: bool,
    pub frontend_encryption: bool,
    pub backend_encryption: bool,
    pub created_at: Timestamp,
    pub expires_at: Option<Timestamp>,
    /// The reads that are left, where reads are counted.
    pub delete_after_read: Option<i32>,
    pub allow_delete_with_passphrase: bool,
}

/// What is public of a note.
#[derive(Clone, Debug, PartialEq, Eq)]
pub struct NoteInfo {
    pub id: String,
    pub title: Option<String>,
    pub backend_encryption: bool,
    pub frontend_encryption: bool,
    pub created_at: Timestamp,
    pub expires_at: Option<Timestamp>,
    pub delete_after_read: Option<i32>,
    pub allow_delete_with_passphrase: bool,
}

/// A note as it is handed to a reader: its content as text, and what is
/// public of it.
#[derive(Clone, Debug, PartialEq, Eq)]
pub struct ResNote {
    pub id: String,
    pub title: Option<String>,
    pub content: String,
    pub frontend_encryption: bool,
    pub backend_encryption: bool,
    pub created_at: Timestamp,
    pub expires_at: Option<Timestamp>,
    /// The reads that are left after this one, where reads are counted.
    pub request_left: Option<i32>,
    pub allow_delete_with_passphrase: bool,
}

/// A request for a new note.
#[derive(Clone, Debug, PartialEq, Eq)]
pub struct NewNote {
    /// The identifier that the caller wishes for.
    pub id: Option<String>,
    pub title: Option<String>,
    pub content: String,
    pub discoverable: Option<bool>,
    pub passphrase: Option<String>,
    /// Whether the caller encrypted the content before sending it.
    pub is_currently_encrypted: Option<bool>,
    pub lifetime_in_secs: Option<u64>,
    pub delete_after_read: Option<i32>,
    pub allow_delete_with_passphrase: Option<bool>,
}

/// A note that is ready to be stored and has no identifier yet.
#[derive(Clone, Debug, PartialEq, Eq)]
pub struct NoteDraft {
    pub title: Option<String>,
    pub content: Vec<u8>,
    pub discoverable: bool,
    pub frontend_encryption: bool,
    pub backend_encryption: bool,
    pub created_at: Timestamp,
    pub expires_at: Option<Timestamp>,
    pub delete_after_read: Option<i32>,
    pub allow_delete_with_passphrase: bool,
}

/// A request for a new note, in its short form.
#[derive(Clone, Debug, PartialEq, Eq)]
pub struct IncomingNote {
    pub title: String,
    pub content: String,
    pub passphrase: Option<String>,
    pub is_currently_encrypted: bool,
    pub lifetime_in_secs: Option<u64>,
}

/// What `IncomingNote` becomes: a note ready to be stored.
#[derive(Clone, Debug, PartialEq, Eq)]
pub struct InsertableNote {
    pub title: String,
    pub content: Vec<u8>,
    pub frontend_encryption: bool,
    pub backend_encryption: bool,
    pub created_at: Timestamp,
    pub expires_at: Option<Timestamp>,
    pub updated_at: Timestamp,
}

/// An optional text by its characters.
pub open spec fn opt_text(text: Option<String>) -> Option<Seq<char>> {
    match text {
        Some(t) => Some(t@),
        None => None,
    }
}

/// `QueryNote` as a mathematical value.
pub struct QueryNoteView {
    pub id: Seq<char>,
    pub title: Option<Seq<char>>,
    pub content: Seq<u8>,
    pub discoverable: bool,
    pub frontend_encryption: bool,
    pub backend_encryption: bool,
    pub created_at: Timestamp,
    pub expires_at: Option<Timestamp>,
    pub delete_after_read: Option<i32>,
    pub allow_delete_with_passphrase: bool,
}

/// `NoteInfo` as a mathematical value.
pub struct NoteInfoView {
    pub id: Seq<char>,
    pub title: Option<Seq<char>>,
    pub backend_encryption: bool,
    pub frontend_encryption: bool,
    pub created_at: Timestamp,
    pub expires_at: Option<Timestamp>,
    pub delete_after_read: Option<i32>,
    pub allow_delete_with_passphrase: bool,
}

/// `ResNote` as a mathematical value.
pub struct ResNoteView {
    pub id: Seq<char>,
    pub title: Option<Seq<char>>,
    pub content: Seq<char>,
    pub frontend_encryption: bool,
    pub backend_encryption: bool,
    pub created_at: Timestamp,
    pub expires_at: Option<Timestamp>,
    pub request_left: Option<i32>,
    pub allow_delete_with_passphrase: bool,
}

/// `NewNote` as a mathematical value.
pub struct NewNoteView {
    pub id: Option<Seq<char>>,
    pub title: Option<Seq<char>>,
    pub content: Seq<char>,
    pub discoverable: Option<bool>,
    pub passphrase: Option<Seq<char>>,
    pub is_currently_encrypted: Option<bool>,
    pub lifetime_in_secs: Option<u64>,
    pub delete_after_read: Option<i32>,
    pub allow_delete_with_passphrase: Option<bool>,
}

/// `NoteDraft` as a mathematical value.
pub struct NoteDraftView {
    pub title: Option<Seq<char>>,
    pub content: Seq<u8>,
    pub discoverable: bool,
    pub frontend_encryption: bool,
    pub backend_encryption: bool,
    pub created_at: Timestamp,
    pub expires_at: Option<Timestamp>,
    pub delete_after_read: Option<i32>,
    pub allow_delete_with_passphrase: bool,
}

/// `IncomingNote` as a mathematical value.
pub struct IncomingNoteView {
    pub title: Seq<char>,
    pub content: Seq<char>,
    pub passphrase: Option<Seq<char>>,
    pub is_currently_encrypted: bool,
    pub lifetime_in_secs: Option<u64>,
}

/// `InsertableNote` as a mathematical value.
pub struct InsertableNoteView {
    pub title: Seq<char>,
    pub content: Seq<u8>,
    pub frontend_encryption: bool,
    pub backend_encryption: bool,
    pub created_at: Timestamp,
    pub expires_at: Option<Timestamp>,
    pub updated_at: Timestamp,
}

impl View for QueryNote {
    type V = QueryNoteView;

    open spec fn view(&self) -> QueryNoteView {
        QueryNoteView {
            id: self.id@,
            title: opt_text(self.title),
            content: self.content@,
            discoverable: self.discoverable,
            frontend_encryption: self.frontend_encryption,
            backend_encryption: self.backend_encryption,
            created_at: self.created_at,
            expires_at: self.expires_at,
            delete_after_read: self.delete_after_read,
            allow_delete_with_passphrase: self.allow_delete_with_passphrase,
        }
    }
}

impl View for NoteInfo {
    type V = NoteInfoView;

    open spec fn view(&self) -> NoteInfoView {
        NoteInfoView {
            id: self.id@,
            title: opt_text(self.title),
            backend_encryption: self.backend_encryption,
            frontend_encryption: self.frontend_encryption,
            created_at: self.created_at,
            expires_at: self.expires_at,
            delete_after_read: self.delete_after_read,
            allow_delete_with_passphrase: self.allow_delete_with_passphrase,
        }
    }
}

impl View for ResNote {
    type V = ResNoteView;

    open spec fn view(&self) -> ResNoteView {
        ResNoteView {
            id: self.id@,
            title: opt_text(self.title),
            content: self.content@,
            frontend_encryption: self.frontend_encryption,
            backend_encryption: self.backend_encryption,
            created_at: self.created_at,
            expires_at: self.expires_at,
            request_left: self.request_left,
            allow_delete_with_passphrase: self.allow_delete_with_passphrase,
        }
    }
}

impl View for NewNote {
    type V = NewNoteView;

    open spec fn view(&self) -> NewNoteView {
        NewNoteView {
            id: opt_text(self.id),
            title: opt_text(self.title),
            content: self.content@,
            discoverable: self.discoverable,
            passphrase: opt_text(self.passphrase),
            is_currently_encrypted: self.is_currently_encrypted,
            lifetime_in_secs: self.lifetime_in_secs,
            delete_after_read: self.delete_after_read,
            allow_delete_with_passphrase: self.allow_delete_with_passphrase,
        }
    }
}

impl View for NoteDraft {
    type V = NoteDraftView;

    open spec fn view(&self) -> NoteDraftView {
        NoteDraftView {
            title: opt_text(self.title),
            content: self.content@,
            discoverable: self.discoverable,
            frontend_encryption: self.frontend_encryption,
            backend_encryption: self.backend_encryption,
            created_at: self.created_at,
            expires_at: self.expires_at,
            delete_after_read: self.delete_after_read,
            allow_delete_with_passphrase: self.allow_delete_with_passphrase,
        }
    }
}

impl View for IncomingNote {
    type V = IncomingNoteView;

    open spec fn view(&self) -> IncomingNoteView {
        IncomingNoteView {
            title: self.title@,
            content: self.content@,
            passphrase: opt_text(self.passphrase),
            is_currently_encrypted: self.is_currently_encrypted,
            lifetime_in_secs: self.lifetime_in_secs,
        }
    }
}

impl View for InsertableNote {
    type V = InsertableNoteView;

    open spec fn view(&self) -> InsertableNoteView {
        InsertableNoteView {
            title: self.title@,
            content: self.content@,
            frontend_encryption: self.frontend_encryption,
            backend_encryption: self.backend_encryption,
            created_at: self.created_at,
            expires_at: self.expires_at,
            updated_at: self.updated_at,
        }
    }
}

/// Copies an optional text.
pub fn copy_opt_text(text: &Option<String>) -> (r: Option<String>)
    ensures
        opt_text(r) == opt_text(*text),
{
    match text {
        Some(t) => Some(t.clone()),
        None => None,
    }
}

/// Whether a note with this expiry is dead at `now`: it is once its expiry
/// has been reached.
pub open spec fn expired(expires_at: Option<Timestamp>, now: Timestamp) -> bool {
    expires_at matches Some(t) && t.spec_le(now)
}

/// Whether a note with this expiry is dead at `now`.
pub fn is_expired(expires_at: Option<Timestamp>, now: Timestamp) -> (b: bool)
    ensures
        b == expired(expires_at, now),
{
    match expires_at {
        Some(t) => t.le(&now),
        None => false,
    }
}

/// When a note created at `now` with the wished lifetime expires, or how the
/// lifetime misses its bounds. A lifetime must be above 30 seconds, must fit
/// the store's 32-bit column, and must not lead past the clock's range.
pub open spec fn expiry_outcome(lifetime: Option<u64>, now: Timestamp) -> Result<
    Option<Timestamp>,
    CommonError,
> {
    match lifetime {
        None => Ok(None),
        Some(secs) => {
            if secs > LIFETIME_CEILING_SECS {
                Err(CommonError::TooLong)
            } else if secs <= LIFETIME_FLOOR_SECS {
                Err(CommonError::TooShort)
            } else if now.secs + secs > u64::MAX {
                Err(CommonError::TooLong)
            } else {
                Ok(Some(Timestamp { secs: (now.secs + secs) as u64, nanos: now.nanos }))
            }
        },
    }
}

/// Computes the expiry of a note created at `now`.
pub fn expiry_for(lifetime: Option<u64>, now: Timestamp) -> (r: Result<
    Option<Timestamp>,
    CommonError,
>)
    ensures
        r == expiry_outcome(lifetime, now),
{
    match lifetime {
        None => Ok(None),
        Some(secs) => {
            if secs > LIFETIME_CEILING_SECS {
                Err(CommonError::TooLong)
            } else if secs > LIFETIME_FLOOR_SECS {
                match now.checked_add_secs(secs) {
                    Some(t) => Ok(Some(t)),
                    None => Err(CommonError::TooLong),
                }
            } else {
                Err(CommonError::TooShort)
            }
        },
    }
}

/// The field error for a passphrase, if the policy finds a fault in it.
pub open spec fn passphrase_faults(passphrase: Option<Seq<char>>) -> Seq<Fields> {
    match passphrase {
        Some(p) => match policy_fault(encode_utf8(p).len()) {
            Some(PassphraseFault::TooShort) => seq![Fields::Passphrase(CommonError::TooShort)],
            Some(PassphraseFault::TooLong) => seq![Fields::Passphrase(CommonError::TooLong)],
            None => Seq::<Fields>::empty(),
        },
        None => Seq::<Fields>::empty(),
    }
}

/// Whether the request asks for a discoverable note that is encrypted on
/// either side.
pub open spec fn discoverable_while_encrypted(note: NewNoteView) -> bool {
    note.discoverable == Some(true) && (note.is_currently_encrypted == Some(true)
        || note.passphrase.is_some())
}

/// What is wrong with the security settings of a request: first the clash of
/// discoverability with encryption, then the passphrase's fault.
pub open spec fn security_faults(note: NewNoteView) -> Seq<Fields> {
    (if discoverable_while_encrypted(note) {
        seq![Fields::LogicError(LogicFault::DiscoverableWhileEncrypted)]
    } else {
        Seq::<Fields>::empty()
    }) + passphrase_faults(note.passphrase)
}

/// What validation of a request gives: the expiry of the note to be, or the
/// faults found. A lifetime out of bounds is reported alone.
pub open spec fn validation_outcome(note: NewNoteView, now: Timestamp) -> Result<
    Option<Timestamp>,
    Seq<Fields>,
> {
    match expiry_outcome(note.lifetime_in_secs, now) {
        Err(fault) => Err(seq![Fields::LifetimeInSecs(fault)]),
        Ok(expires_at) => {
            if security_faults(note).len() > 0 {
                Err(security_faults(note))
            } else {
                Ok(expires_at)
            }
        },
    }
}

/// Whether `e` reports exactly the field errors `faults`.
pub open spec fn is_user_error(e: ServerError, faults: Seq<Fields>) -> bool {
    e matches ServerError::UserError(fields) && fields@ == faults
}

/// The draft that a valid request becomes. `sealed` is the blob that the
/// sealing engine made of the content, where the request has a passphrase.
pub open spec fn draft_of(
    note: NewNoteView,
    expires_at: Option<Timestamp>,
    sealed: Option<Seq<u8>>,
    now: Timestamp,
) -> NoteDraftView {
    NoteDraftView {
        title: note.title,
        content: match sealed {
            Some(blob) => blob,
            None => encode_utf8(note.content),
        },
        discoverable: note.discoverable == Some(true),
        frontend_encryption: note.is_currently_encrypted == Some(true),
        backend_encryption: sealed.is_some(),
        created_at: now,
        expires_at,
        delete_after_read: note.delete_after_read,
        allow_delete_with_passphrase: note.allow_delete_with_passphrase == Some(true),
    }
}

impl NoteDraftView {
    /// A discoverable note is encrypted on neither side.
    pub open spec fn wf(self) -> bool {
        self.discoverable ==> !self.backend_encryption && !self.frontend_encryption
    }
}

impl QueryNoteView {
    /// A discoverable note is encrypted on neither side.
    pub open spec fn wf(self) -> bool {
        self.discoverable ==> !self.backend_encryption && !self.frontend_encryption
    }

    /// Whether the note may show up in a search by title.
    pub open spec fn listed(self) -> bool {
        self.discoverable && !self.backend_encryption && !self.frontend_encryption
    }

    /// What is public of the note.
    pub open spec fn info(self) -> NoteInfoView {
        NoteInfoView {
            id: self.id,
            title: self.title,
            backend_encryption: self.backend_encryption,
            frontend_encryption: self.frontend_encryption,
            created_at: self.created_at,
            expires_at: self.expires_at,
            delete_after_read: self.delete_after_read,
            allow_delete_with_passphrase: self.allow_delete_with_passphrase,
        }
    }

    /// The reply that carries `content` as this note's text.
    pub open spec fn reply(self, content: Seq<char>) -> ResNoteView {
        ResNoteView {
            id: self.id,
            title: self.title,
            content,
            frontend_encryption: self.frontend_encryption,
            backend_encryption: self.backend_encryption,
            created_at: self.created_at,
            expires_at: self.expires_at,
            request_left: self.delete_after_read,
            allow_delete_with_passphrase: self.allow_delete_with_passphrase,
        }
    }
}

impl NoteDraftView {
    /// The draft stored under `id`.
    pub open spec fn with_id(self, id: Seq<char>) -> QueryNoteView {
        QueryNoteView {
            id,
            title: self.title,
            content: self.content,
            discoverable: self.discoverable,
            frontend_encryption: self.frontend_encryption,
            backend_encryption: self.backend_encryption,
            created_at: self.created_at,
            expires_at: self.expires_at,
            delete_after_read: self.delete_after_read,
            allow_delete_with_passphrase: self.allow_delete_with_passphrase,
        }
    }
}

/// A request that passes validation never gives a draft that is both
/// discoverable and encrypted.
pub proof fn lemma_valid_request_gives_wf_draft(
    note: NewNoteView,
    sealed: Option<Seq<u8>>,
    now: Timestamp,
)
    requires
        validation_outcome(note, now) is Ok,
        sealed.is_some() == note.passphrase.is_some(),
    ensures
        draft_of(note, validation_outcome(note, now)->Ok_0, sealed, now).wf(),
{
    assert(security_faults(note).len() == 0);
    if discoverable_while_encrypted(note) {
        assert(security_faults(note).len() >= 1);
    }
}

/// Whether a request asks to seal more content than the cipher takes in one
/// piece. Such a request is the one valid request that is not served.
pub open spec fn beyond_the_cipher(passphrase: Option<Seq<char>>, content: Seq<char>) -> bool {
    passphrase.is_some() && encode_utf8(content).len() > MAX_CONTENT_LEN
}

/// What a request with a passphrase must give: a draft whose content opens,
/// under that passphrase, to the request's content. Without a passphrase the
/// draft holds the content as it came.
pub open spec fn prepared(
    note: NewNoteView,
    expires_at: Option<Timestamp>,
    now: Timestamp,
    draft: NoteDraftView,
) -> bool {
    match note.passphrase {
        Some(p) => draft == draft_of(note, expires_at, Some(draft.content), now) && open_outcome(
            encode_utf8(p),
            draft.content,
        ) == Ok::<Seq<u8>, SealError>(encode_utf8(note.content)),
        None => draft == draft_of(note, expires_at, None, now),
    }
}

/// What reading a note with a passphrase gives.
///
/// A sealed note is opened; a passphrase that is empty, outside the policy or
/// wrong gives `InvalidCredentials`, and so does a blob that is not intact. A
/// note that is not sealed is read as it is.
pub open spec fn decrypt_outcome(note: QueryNoteView, passphrase: Seq<char>) -> Result<
    ResNoteView,
    ServerError,
> {
    if note.backend_encryption {
        match open_outcome(encode_utf8(passphrase), note.content) {
            Ok(plain) => match text_of(plain) {
                Some(text) => Ok(note.reply(text)),
                None => Err(ServerError::TinderCryptError),
            },
            Err(_) => Err(ServerError::InvalidCredentials),
        }
    } else {
        match text_of(note.content) {
            Some(text) => Ok(note.reply(text)),
            None => Err(ServerError::Default),
        }
    }
}

/// The view of what reading a note gave.
pub open spec fn reply_view(r: Result<ResNote, ServerError>) -> Result<ResNoteView, ServerError> {
    match r {
        Ok(note) => Ok(note@),
        Err(e) => Err(e),
    }
}

/// What validation of a short-form request gives: the expiry, or the one
/// fault found, the lifetime's before the passphrase's.
pub open spec fn incoming_outcome(note: IncomingNoteView, now: Timestamp) -> Result<
    Option<Timestamp>,
    Seq<Fields>,
> {
    match expiry_outcome(note.lifetime_in_secs, now) {
        Err(fault) => Err(seq![Fields::LifetimeInSecs(fault)]),
        Ok(expires_at) => {
            if passphrase_faults(note.passphrase).len() > 0 {
                Err(passphrase_faults(note.passphrase))
            } else {
                Ok(expires_at)
            }
        },
    }
}

/// The note that a valid short-form request becomes. The title of a sealed
/// note is trimmed.
pub open spec fn insertable_of(
    note: IncomingNoteView,
    expires_at: Option<Timestamp>,
    sealed: Option<Seq<u8>>,
    now: Timestamp,
) -> InsertableNoteView {
    InsertableNoteView {
        title: if sealed.is_some() {
            trimmed(note.title)
        } else {
            note.title
        },
        content: match sealed {
            Some(blob) => blob,
            None => encode_utf8(note.content),
        },
        frontend_encryption: note.is_currently_encrypted,
        backend_encryption: sealed.is_some(),
        created_at: now,
        expires_at,
        updated_at: now,
    }
}

/// What a short-form request with a passphrase must give: see `prepared`.
pub open spec fn insertable(
    note: IncomingNoteView,
    expires_at: Option<Timestamp>,
    now: Timestamp,
    out: InsertableNoteView,
) -> bool {
    match note.passphrase {
        Some(p) => out == insertable_of(note, expires_at, Some(out.content), now) && open_outcome(
            encode_utf8(p),
            out.content,
        ) == Ok::<Seq<u8>, SealError>(encode_utf8(note.content)),
        None => out == insertable_of(note, expires_at, None, now),
    }
}

/// The error that reports one field fault.
fn one_fault(fault: Fields) -> (e: ServerError)
    ensures
        is_user_error(e, seq![fault]),
{
    let mut faults: Vec<Fields> = Vec::new();
    faults.push(fault);
    proof {
        assert(faults@ =~= seq![fault]);
    }
    ServerError::UserError(faults)
}

/// Appends the passphrase's fault, if the policy finds one.
fn push_passphrase_fault(faults: &mut Vec<Fields>, passphrase: &Option<String>)
    ensures
        final(faults)@ == old(faults)@ + passphrase_faults(opt_text(*passphrase)),
{
    match passphrase {
        Some(p) => match check_passphrase(p.as_str()) {
            Some(PassphraseFault::TooShort) => {
                faults.push(Fields::Passphrase(CommonError::TooShort));
                proof {
                    assert(faults@ =~= old(faults)@ + seq![Fields::Passphrase(CommonError::TooShort)]);
                }
            },
            Some(PassphraseFault::TooLong) => {
                faults.push(Fields::Passphrase(CommonError::TooLong));
                proof {
                    assert(faults@ =~= old(faults)@ + seq![Fields::Passphrase(CommonError::TooLong)]);
                }
            },
            None => {
                proof {
                    assert(faults@ =~= old(faults)@ + Seq::<Fields>::empty());
                }
            },
        },
        None => {
            proof {
                assert(faults@ =~= old(faults)@ + Seq::<Fields>::empty());
            }
        },
    }
}

impl NewNote {
    /// Checks the request's lifetime, its security settings and its passphrase.
    ///
    /// Gives the expiry of the note to be, or the faults found, as
    /// `validation_outcome` lists them.
    pub fn validate(&self, now: Timestamp) -> (r: Result<Option<Timestamp>, ServerError>)
        ensures
            match validation_outcome(self@, now) {
                Ok(expires_at) => r == Ok::<Option<Timestamp>, ServerError>(expires_at),
                Err(faults) => r matches Err(e) && is_user_error(e, faults),
            },
    {
        let expires_at = match expiry_for(self.lifetime_in_secs, now) {
            Ok(t) => t,
            Err(fault) => {
                return Err(one_fault(Fields::LifetimeInSecs(fault)));
            },
        };
        let wants_discovery = match self.discoverable {
            Some(true) => true,
            _ => false,
        };
        let arrives_encrypted = match self.is_currently_encrypted {
            Some(true) => true,
            _ => false,
        };
        let mut faults: Vec<Fields> = Vec::new();
        if wants_discovery && (arrives_encrypted || self.passphrase.is_some()) {
            faults.push(Fields::LogicError(LogicFault::DiscoverableWhileEncrypted));
        }
        proof {
            assert(faults@ =~= if discoverable_while_encrypted(self@) {
                seq![Fields::LogicError(LogicFault::DiscoverableWhileEncrypted)]
            } else {
                Seq::<Fields>::empty()
            });
        }
        push_passphrase_fault(&mut faults, &self.passphrase);
        if faults.len() > 0 {
            Err(ServerError::UserError(faults))
        } else {
            Ok(expires_at)
        }
    }

    /// Builds the draft of a validated request. `sealed` is the blob that the
    /// sealing engine made of the content, or nothing for a note that is
    /// stored as it came.
    pub fn into_draft(
        &self,
        expires_at: Option<Timestamp>,
        sealed: Option<Vec<u8>>,
        now: Timestamp,
    ) -> (draft: NoteDraft)
        ensures
            draft@ == draft_of(
                self@,
                expires_at,
                match sealed {
                    Some(blob) => Some(blob@),
                    None => None,
                },
                now,
            ),
    {
        let backend_encryption = sealed.is_some();
        let content = match sealed {
            Some(blob) => blob,
            None => self.content.as_str().as_bytes_vec(),
        };
        NoteDraft {
            title: copy_opt_text(&self.title),
            content,
            discoverable: match self.discoverable {
                Some(true) => true,
                _ => false,
            },
            frontend_encryption: match self.is_currently_encrypted {
                Some(true) => true,
                _ => false,
            },
            backend_encryption,
            created_at: now,
            expires_at,
            delete_after_read: self.delete_after_read,
            allow_delete_with_passphrase: match self.allow_delete_with_passphrase {
                Some(true) => true,
                _ => false,
            },
        }
    }

    /// Validates the request and makes the draft of the note, sealing the
    /// content where the request has a passphrase.
    ///
    /// An invalid request is refused with its faults. A valid one gives the
    /// draft, unless it asks to seal more than the cipher takes.
    pub fn prepare(&self, now: Timestamp) -> (r: Result<NoteDraft, ServerError>)
        ensures
            match validation_outcome(self@, now) {
                Err(faults) => r matches Err(e) && is_user_error(e, faults),
                Ok(expires_at) => if beyond_the_cipher(self@.passphrase, self@.content) {
                    r == Err::<NoteDraft, ServerError>(ServerError::TinderCryptError)
                } else {
                    r matches Ok(draft) && prepared(self@, expires_at, now, draft@) && draft@.wf()
                },
            },
    {
        let expires_at = match self.validate(now) {
            Ok(t) => t,
            Err(e) => {
                return Err(e);
            },
        };
        let sealed = match &self.passphrase {
            Some(p) => match seal(p.as_str(), self.content.as_str().as_bytes()) {
                Ok(blob) => Some(blob),
                Err(_) => {
                    return Err(ServerError::TinderCryptError);
                },
            },
            None => None,
        };
        let draft = self.into_draft(expires_at, sealed, now);
        proof {
            lemma_valid_request_gives_wf_draft(
                self@,
                if self.passphrase.is_some() {
                    Some(draft.content@)
                } else {
                    None
                },
                now,
            );
        }
        Ok(draft)
    }
}

impl NoteDraft {
    /// The note that is stored when the draft is given the identifier `id`.
    pub fn with_id(&self, id: String) -> (note: QueryNote)
        ensures
            note@ == self@.with_id(id@),
            self@.wf() ==> note@.wf(),
    {
        QueryNote {
            id,
            title: copy_opt_text(&self.title),
            content: slice_to_vec(self.content.as_slice()),
            discoverable: self.discoverable,
            frontend_encryption: self.frontend_encryption,
            backend_encryption: self.backend_encryption,
            created_at: self.created_at,
            expires_at: self.expires_at,
            delete_after_read: self.delete_after_read,
            allow_delete_with_passphrase: self.allow_delete_with_passphrase,
        }
    }
}

impl QueryNote {
    /// What is public of the note.
    pub fn info(&self) -> (r: NoteInfo)
        ensures
            r@ == self@.info(),
    {
        NoteInfo {
            id: self.id.clone(),
            title: copy_opt_text(&self.title),
            backend_encryption: self.backend_encryption,
            frontend_encryption: self.frontend_encryption,
            created_at: self.created_at,
            expires_at: self.expires_at,
            delete_after_read: self.delete_after_read,
            allow_delete_with_passphrase: self.allow_delete_with_passphrase,
        }
    }

    /// Whether the note may show up in a search by title: only a note that is
    /// discoverable and encrypted on neither side does.
    pub fn is_listed(&self) -> (b: bool)
        ensures
            b == self@.listed(),
    {
        self.discoverable && !self.backend_encryption && !self.frontend_encryption
    }

    /// The reply that carries `content` as this note's text.
    fn reply_with(&self, content: String) -> (r: ResNote)
        ensures
            r@ == self@.reply(content@),
    {
        ResNote {
            id: self.id.clone(),
            title: copy_opt_text(&self.title),
            content,
            frontend_encryption: self.frontend_encryption,
            backend_encryption: self.backend_encryption,
            created_at: self.created_at,
            expires_at: self.expires_at,
            request_left: self.delete_after_read,
            allow_delete_with_passphrase: self.allow_delete_with_passphrase,
        }
    }

    /// Reads the note's content as text, opening it with the passphrase where
    /// the note is sealed.
    pub fn try_decrypt(&self, passphrase_input: &String) -> (r: Result<ResNote, ServerError>)
        ensures
            reply_view(r) == decrypt_outcome(self@, passphrase_input@),
    {
        if self.backend_encryption {
            match open(passphrase_input.as_str(), self.content.as_slice()) {
                Ok(plain) => match text_from_bytes(plain) {
                    Some(text) => Ok(self.reply_with(text)),
                    None => Err(ServerError::TinderCryptError),
                },
                Err(_) => Err(ServerError::InvalidCredentials),
            }
        } else {
            match text_from_bytes(slice_to_vec(self.content.as_slice())) {
                Some(text) => Ok(self.reply_with(text)),
                None => Err(ServerError::Default),
            }
        }
    }
}

impl IncomingNote {
    /// Validates the request and makes the note to be stored, sealing the
    /// content where the request has a passphrase.
    ///
    /// A lifetime out of bounds is refused first, then a passphrase outside
    /// the policy. A valid request gives the note, created at `now`, unless
    /// it asks to seal more than the cipher takes.
    pub fn into_insertable(self, now: Timestamp) -> (r: Result<InsertableNote, ServerError>)
        ensures
            match incoming_outcome(self@, now) {
                Err(faults) => r matches Err(e) && is_user_error(e, faults),
                Ok(expires_at) => if beyond_the_cipher(self@.passphrase, self@.content) {
                    r == Err::<InsertableNote, ServerError>(ServerError::TinderCryptError)
                } else {
                    r matches Ok(out) && insertable(self@, expires_at, now, out@)
                },
            },
    {
        let expires_at = match expiry_for(self.lifetime_in_secs, now) {
            Ok(t) => t,
            Err(fault) => {
                return Err(one_fault(Fields::LifetimeInSecs(fault)));
            },
        };
        let mut faults: Vec<Fields> = Vec::new();
        push_passphrase_fault(&mut faults, &self.passphrase);
        proof {
            assert(faults@ =~= passphrase_faults(opt_text(self.passphrase)));
        }
        if faults.len() > 0 {
            return Err(ServerError::UserError(faults));
        }
        match &self.passphrase {
            Some(p) => {
                let sealed = match seal(p.as_str(), self.content.as_str().as_bytes()) {
                    Ok(blob) => blob,
                    Err(_) => {
                        return Err(ServerError::TinderCryptError);
                    },
                };
                Ok(
                    InsertableNote {
                        title: trim_text(self.title.as_str()),
                        content: sealed,
                        frontend_encryption: self.is_currently_encrypted,
                        backend_encryption: true,
                        created_at: now,
                        expires_at,
                        updated_at: now,
                    },
                )
            },
            None => Ok(
                InsertableNote {
                    title: self.title.clone(),
                    content: self.content.as_str().as_bytes_vec(),
                    frontend_encryption: self.is_currently_encrypted,
                    backend_encryption: false,
                    created_at: now,
                    expires_at,
                    updated_at: now,
                },
            ),
        }
    }
}

} // verus!
