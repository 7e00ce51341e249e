//! Identifiers of notes: the caller's wish, or six random characters.

use vstd::prelude::*;
use crate::errors::ServerError;
use crate::text::{blank, is_blank};

verus! {

/// The number of characters of a generated identifier.
pub const GENERATED_ID_LEN: usize = 6;

/// The characters that generated identifiers are made of: ASCII letters and
/// digits, the underscore and the hyphen.
pub open spec fn is_id_char(c: char) -> bool {
    let n = c as u32;
    n == 0x5f || n == 0x2d || (0x30 <= n <= 0x39) || (0x61 <= n <= 0x7a) || (0x41 <= n <= 0x5a)
}

/// Whether `id` has the shape of a generated identifier.
pub open spec fn is_generated_id(id: Seq<char>) -> bool {
    id.len() == GENERATED_ID_LEN && forall|i: int| 0 <= i < id.len() ==> is_id_char(#[trigger] id[i])
}

/// Calls `nanoid::format` with the crate's default generator and its URL-safe
/// alphabet for six characters, as `nanoid!(6)` does. Each call draws anew;
/// whatever is drawn, the result has six characters of that alphabet.
#[verifier::external_body]
fn nanoid_six() -> (id: String)
    ensures
        is_generated_id(id@),
{
    nanoid::format(nanoid::rngs::default, &nanoid::alphabet::SAFE, 6)
}

/// Where a note's identifier comes from.
#[derive(Clone, Debug, PartialEq, Eq)]
pub enum IdSource {
    /// The caller asked for this identifier.
    Custom(String),
    /// The identifier is drawn at random.
    Generated,
}

/// `IdSource` as a mathematical value.
pub enum IdSourceView {
    Custom(Seq<char>),
    Generated,
}

impl View for IdSource {
    type V = IdSourceView;

    open spec fn view(&self) -> IdSourceView {
        match *self {
            IdSource::Custom(id) => IdSourceView::Custom(id@),
            IdSource::Generated => IdSourceView::Generated,
        }
    }
}

/// How an attempt to store a note under a candidate identifier ended.
#[derive(Clone, Copy, Debug, PartialEq, Eq, Structural)]
pub enum InsertOutcome {
    /// The note is stored.
    Inserted,
    /// The identifier is in use.
    Conflict,
    /// The store failed for another reason.
    Failed,
}

/// What to do after an attempt to store a note.
#[derive(Clone, Debug, PartialEq, Eq)]
pub enum AllocationStep {
    /// The identifier is the note's.
    Done,
    /// Try again with a fresh candidate.
    Retry,
    /// Give up with this error.
    Refused(ServerError),
}

/// The source of the identifier for a wish: the wish itself where there is
/// one and it is not blank, a random draw otherwise.
pub open spec fn source_of(wish: Option<Seq<char>>) -> IdSourceView {
    match wish {
        Some(id) => if is_blank(id) {
            IdSourceView::Generated
        } else {
            IdSourceView::Custom(id)
        },
        None => IdSourceView::Generated,
    }
}

/// What follows an attempt: a stored note settles the identifier; a conflict
/// on a wished identifier is the caller's to resolve, one on a drawn
/// identifier is retried; a failure of the store ends the attempt.
pub open spec fn step_after(source: IdSourceView, outcome: InsertOutcome) -> AllocationStep {
    match outcome {
        InsertOutcome::Inserted => AllocationStep::Done,
        InsertOutcome::Conflict => match source {
            IdSourceView::Custom(_) => AllocationStep::Refused(ServerError::IdentifierTaken),
            IdSourceView::Generated => AllocationStep::Retry,
        },
        InsertOutcome::Failed => AllocationStep::Refused(ServerError::DieselError),
    }
}

/// Draws a fresh identifier.
pub fn generate_id() -> (id: String)
    ensures
        is_generated_id(id@),
{
    nanoid_six()
}

/// Decides where the identifier of a new note comes from.
pub fn id_source(wish: &Option<String>) -> (source: IdSource)
    ensures
        source@ == source_of(
            match *wish {
                Some(id) => Some(id@),
                None => None,
            },
        ),
{
    match wish {
        Some(id) => if blank(id.as_str()) {
            IdSource::Generated
        } else {
            IdSource::Custom(id.clone())
        },
        None => IdSource::Generated,
    }
}

/// The identifier to try next: the caller's wish, or a fresh draw.
pub fn next_candidate(source: &IdSource) -> (id: String)
    ensures
        match source@ {
            IdSourceView::Custom(wish) => id@ == wish,
            IdSourceView::Generated => is_generated_id(id@),
        },
{
    match source {
        IdSource::Custom(wish) => wish.clone(),
        IdSource::Generated => generate_id(),
    }
}

/// Decides what follows an attempt to store a note.
pub fn after_insert(source: &IdSource, outcome: InsertOutcome) -> (step: AllocationStep)
    ensures
        step == step_after(source@, outcome),
{
    match outcome {
        InsertOutcome::Inserted => AllocationStep::Done,
        InsertOutcome::Conflict => match source {
            IdSource::Custom(_) => AllocationStep::Refused(ServerError::IdentifierTaken),
            IdSource::Generated => AllocationStep::Retry,
        },
        InsertOutcome::Failed => AllocationStep::Refused(ServerError::DieselError),
    }
}

/// A conflict is retried only for drawn identifiers, and a wished identifier
/// is never replaced by another.
pub proof fn lemma_wished_id_is_never_retried(source: IdSourceView, outcome: InsertOutcome)
    ensures
        step_after(source, outcome) == AllocationStep::Retry <==> (source is Generated && outcome
            == InsertOutcome::Conflict),
{
}

} // verus!
