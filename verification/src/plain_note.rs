//! Plain notes: text kept for a while under a random identifier, without
//! sealing and without proof of ownership.

use vstd::prelude::*;
use crate::errors::{CommonError, Fields, ServerError};
use crate::lifecycle::StoreAction;
use crate::note::is_user_error;
use crate::time::Timestamp;

verus! {

/// The lifetime, in seconds, of a plain note that asks for none, or for one
/// out of bounds.
pub const DEFAULT_LIFETIME_SECS: u64 = 2700;

/// The longest lifetime, in seconds, that a plain note may ask for: two years.
pub const MAX_LIFETIME_SECS: u64 = 63_115_200;

/// A plain note as the store holds it.
#[derive(Clone, Debug, PartialEq, Eq)]
pub struct PlainNote {
    pub id: String,
    pub title: String,
    pub content: String,
    pub is_encrypted: bool,
    pub created_at: Timestamp,
    pub expired_at: Timestamp,
}

/// A request for a new plain note.
#[derive(Clone, Debug, PartialEq, Eq)]
pub struct ReqPlainNote {
    pub title: String,
    pub content: String,
    pub lifetime_in_secs: Option<u64>,
    pub is_encrypted: bool,
}

/// Whether `c` is a decimal digit or one of the letters a to f.
pub open spec fn is_lower_hex(c: char) -> bool {
    let n = c as u32;
    (0x30 <= n <= 0x39) || (0x61 <= n <= 0x66)
}

/// Whether `id` is written like a version 4 UUID: 36 characters, hyphens
/// after the 8th, 12th, 16th and 20th digit, lower-case hexadecimal digits
/// elsewhere, and the version digit 4.
pub open spec fn is_uuid_text(id: Seq<char>) -> bool {
    &&& id.len() == 36
    &&& id[14] == '4'
    &&& forall|i: int|
        0 <= i < 36 ==> if i == 8 || i == 13 || i == 18 || i == 23 {
            #[trigger] id[i] == '-'
        } else {
            is_lower_hex(id[i])
        }
}

/// Calls `Uuid::new_v4` and writes the result out with `to_string`. Each call
/// draws anew; whatever is drawn is written in the hyphenated lower-case
/// form, with the version digit in its place.
#[verifier::external_body]
fn uuid_v4_text() -> (id: String)
    ensures
        is_uuid_text(id@),
{
    uuid::Uuid::new_v4().to_string()
}

/// The lifetime that a plain note gets: the wished one where it is at least
/// one second and at most two years, 45 minutes otherwise.
pub open spec fn plain_lifetime(wish: Option<u64>) -> u64 {
    match wish {
        Some(secs) => if secs == 0 || secs > MAX_LIFETIME_SECS {
            DEFAULT_LIFETIME_SECS
        } else {
            secs
        },
        None => DEFAULT_LIFETIME_SECS,
    }
}

/// Computes the lifetime of a plain note.
pub fn lifetime_for(wish: Option<u64>) -> (secs: u64)
    ensures
        secs == plain_lifetime(wish),
        1 <= secs <= MAX_LIFETIME_SECS,
{
    match wish {
        Some(secs) => if secs == 0 || secs > MAX_LIFETIME_SECS {
            DEFAULT_LIFETIME_SECS
        } else {
            secs
        },
        None => DEFAULT_LIFETIME_SECS,
    }
}

impl ReqPlainNote {
    /// Makes the note to be stored: created at `now`, under a fresh random
    /// identifier, expiring after its lifetime.
    ///
    /// Fails only where the expiry would lie beyond the clock's range.
    pub fn to_insertable(self, now: Timestamp) -> (r: Result<PlainNote, ServerError>)
        ensures
            now.secs + plain_lifetime(self.lifetime_in_secs) <= u64::MAX ==> (r matches Ok(note)
                && is_uuid_text(note.id@) && note.title@ == self.title@ && note.content@
                == self.content@ && note.is_encrypted == self.is_encrypted && note.created_at
                == now && note.expired_at == (Timestamp {
                secs: (now.secs + plain_lifetime(self.lifetime_in_secs)) as u64,
                nanos: now.nanos,
            })),
            now.secs + plain_lifetime(self.lifetime_in_secs) > u64::MAX ==> (r matches Err(e)
                && is_user_error(e, seq![Fields::LifetimeInSecs(CommonError::TooLong)])),
    {
        let expired_at = match now.checked_add_secs(lifetime_for(self.lifetime_in_secs)) {
            Some(t) => t,
            None => {
                let mut faults: Vec<Fields> = Vec::new();
                faults.push(Fields::LifetimeInSecs(CommonError::TooLong));
                proof {
                    assert(faults@ =~= seq![Fields::LifetimeInSecs(CommonError::TooLong)]);
                }
                return Err(ServerError::UserError(faults));
            },
        };
        Ok(
            PlainNote {
                id: uuid_v4_text(),
                title: self.title,
                content: self.content,
                is_encrypted: self.is_encrypted,
                created_at: now,
                expired_at,
            },
        )
    }
}

/// Whether an error says that the note `id` was not found.
pub open spec fn is_not_found(e: ServerError, id: Seq<char>) -> bool {
    e matches ServerError::NotFound(missing) && missing@ == id
}

/// Decides a read of the plain note `id`: the note where the store holds it
/// and its expiry has not been reached; not found otherwise, and an expired
/// note is removed.
pub fn get_plain(found: Option<PlainNote>, id: &String, now: Timestamp) -> (r: (
    Result<PlainNote, ServerError>,
    StoreAction,
))
    ensures
        match found {
            Some(note) => if note.expired_at.spec_le(now) {
                (r.0 matches Err(e) && is_not_found(e, id@)) && r.1 == StoreAction::Delete
            } else {
                r.0 == Ok::<PlainNote, ServerError>(note) && r.1 == StoreAction::Nothing
            },
            None => (r.0 matches Err(e) && is_not_found(e, id@)) && r.1 == StoreAction::Nothing,
        },
{
    match found {
        Some(note) => {
            if note.expired_at.le(&now) {
                (Err(ServerError::NotFound(id.clone())), StoreAction::Delete)
            } else {
                (Ok(note), StoreAction::Nothing)
            }
        },
        None => (Err(ServerError::NotFound(id.clone())), StoreAction::Nothing),
    }
}

} // verus!
