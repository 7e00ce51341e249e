//! The service's errors and the class of response each one is answered with.

use vstd::prelude::*;
use vstd::string::StringExecFns;

verus! {

/// How a field value misses its bounds.
#[derive(Clone, Copy, Debug, PartialEq, Eq, Structural)]
pub enum CommonError {
    TooShort,
    TooLong,
    Empty,
}

/// A combination of request fields that the service does not accept.
#[derive(Clone, Copy, Debug, PartialEq, Eq, Structural)]
pub enum LogicFault {
    /// A note that is sealed, or arrives encrypted, asks to be discoverable.
    DiscoverableWhileEncrypted,
}

/// A request field together with what is wrong with it.
#[derive(Clone, Copy, Debug, PartialEq, Eq, Structural)]
pub enum Fields {
    LifetimeInSecs(CommonError),
    Passphrase(CommonError),
    LogicError(LogicFault),
}

/// Everything that can go wrong while serving a request.
#[derive(Clone, Debug, PartialEq, Eq)]
pub enum ServerError {
    /// The note store failed.
    DieselError,
    /// A setting that the service needs is missing.
    EnvironmentError,
    /// No connection to the note store could be had.
    R2D2Error,
    /// The sealing engine failed.
    TinderCryptError,
    /// The token signer failed.
    JWTError,
    /// A failure that is answered without a message.
    Default,
    /// The token is not one that this service signed.
    GeneralNoAccess,
    /// The token's content has a shape that this service no longer reads.
    BlameUpdate,
    /// The request's fields are out of bounds.
    UserError(Vec<Fields>),
    /// The passphrase is missing, out of bounds or wrong.
    InvalidCredentials,
    /// No note has this identifier.
    NotFound(String),
    /// The identifier that the caller asked for is in use.
    IdentifierTaken,
    /// Neither a token nor a passphrase authorizes the operation.
    Unauthorized,
    /// A note was stored, no token could be issued for it, and it could not be
    /// removed again.
    OrphanedNote(String),
}

/// The classes of response that the boundary answers with.
#[derive(Clone, Copy, Debug, PartialEq, Eq, Structural)]
pub enum StatusClass {
    BadRequest,
    Forbidden,
    NotFound,
    Conflict,
    Unprocessable,
    Internal,
}

impl StatusClass {
    /// The HTTP status code of the class.
    pub open spec fn spec_code(&self) -> u16 {
        match *self {
            StatusClass::BadRequest => 400,
            StatusClass::Forbidden => 403,
            StatusClass::NotFound => 404,
            StatusClass::Conflict => 409,
            StatusClass::Unprocessable => 422,
            StatusClass::Internal => 500,
        }
    }

    /// The HTTP status code of the class.
    pub fn code(&self) -> (c: u16)
        ensures
            c == self.spec_code(),
            400 <= c <= 500,
    {
        match self {
            StatusClass::BadRequest => 400,
            StatusClass::Forbidden => 403,
            StatusClass::NotFound => 404,
            StatusClass::Conflict => 409,
            StatusClass::Unprocessable => 422,
            StatusClass::Internal => 500,
        }
    }
}

impl CommonError {
    /// The machine-readable name of the fault.
    pub fn kind_name(&self) -> (r: &'static str)
        ensures
            r@ == match *self {
                CommonError::TooShort => "too_short"@,
                CommonError::TooLong => "too_long"@,
                CommonError::Empty => "empty"@,
            },
    {
        match self {
            CommonError::TooShort => "too_short",
            CommonError::TooLong => "too_long",
            CommonError::Empty => "empty",
        }
    }
}

impl LogicFault {
    /// The sentence that explains the fault to the caller.
    pub fn message(&self) -> (r: &'static str)
        ensures
            r@ == "Discoverability is not allowed if note is going to be encrypted"@,
    {
        match self {
            LogicFault::DiscoverableWhileEncrypted => {
                "Discoverability is not allowed if note is going to be encrypted"
            },
        }
    }
}

impl Fields {
    /// The machine-readable name of the field.
    pub fn field_name(&self) -> (r: &'static str)
        ensures
            r@ == match *self {
                Fields::LifetimeInSecs(_) => "lifetime_in_secs"@,
                Fields::Passphrase(_) => "passphrase"@,
                Fields::LogicError(_) => "discoverable"@,
            },
    {
        match self {
            Fields::LifetimeInSecs(_) => "lifetime_in_secs",
            Fields::Passphrase(_) => "passphrase",
            Fields::LogicError(_) => "discoverable",
        }
    }

    /// The bound that the field misses, for the fields that have bounds.
    pub fn fault(&self) -> (r: Option<CommonError>)
        ensures
            r == match *self {
                Fields::LifetimeInSecs(e) => Some(e),
                Fields::Passphrase(e) => Some(e),
                Fields::LogicError(_) => None,
            },
    {
        match self {
            Fields::LifetimeInSecs(e) => Some(*e),
            Fields::Passphrase(e) => Some(*e),
            Fields::LogicError(_) => None,
        }
    }
}

impl ServerError {
    /// The class of response that answers this error.
    ///
    /// A wrong passphrase is answered like a note that does not exist, so that
    /// a caller cannot tell the two apart.
    pub open spec fn spec_class(&self) -> StatusClass {
        match *self {
            ServerError::UserError(_) => StatusClass::BadRequest,
            ServerError::GeneralNoAccess => StatusClass::Forbidden,
            ServerError::Unauthorized => StatusClass::Forbidden,
            ServerError::InvalidCredentials => StatusClass::NotFound,
            ServerError::NotFound(_) => StatusClass::NotFound,
            ServerError::IdentifierTaken => StatusClass::Conflict,
            ServerError::BlameUpdate => StatusClass::Unprocessable,
            ServerError::DieselError => StatusClass::Internal,
            ServerError::EnvironmentError => StatusClass::Internal,
            ServerError::R2D2Error => StatusClass::Internal,
            ServerError::TinderCryptError => StatusClass::Internal,
            ServerError::JWTError => StatusClass::Internal,
            ServerError::Default => StatusClass::Internal,
            ServerError::OrphanedNote(_) => StatusClass::Internal,
        }
    }

    /// The class of response that answers this error.
    pub fn class(&self) -> (c: StatusClass)
        ensures
            c == self.spec_class(),
    {
        match self {
            ServerError::UserError(_) => StatusClass::BadRequest,
            ServerError::GeneralNoAccess => StatusClass::Forbidden,
            ServerError::Unauthorized => StatusClass::Forbidden,
            ServerError::InvalidCredentials => StatusClass::NotFound,
            ServerError::NotFound(_) => StatusClass::NotFound,
            ServerError::IdentifierTaken => StatusClass::Conflict,
            ServerError::BlameUpdate => StatusClass::Unprocessable,
            ServerError::DieselError => StatusClass::Internal,
            ServerError::EnvironmentError => StatusClass::Internal,
            ServerError::R2D2Error => StatusClass::Internal,
            ServerError::TinderCryptError => StatusClass::Internal,
            ServerError::JWTError => StatusClass::Internal,
            ServerError::Default => StatusClass::Internal,
            ServerError::OrphanedNote(_) => StatusClass::Internal,
        }
    }

    /// The text that goes with the response, for the errors that carry one.
    pub open spec fn spec_message(&self) -> Option<Seq<char>> {
        match *self {
            ServerError::DieselError => Some("Library Error: Diesel Error."@),
            ServerError::EnvironmentError => Some(
                "Server Error: Use of an uninitialized environment variable."@,
            ),
            ServerError::R2D2Error => Some("Server Error: Pooling Error."@),
            ServerError::TinderCryptError => Some("Library Error: File Decryption Unsucessful"@),
            ServerError::JWTError => Some("Library Error: JWT Library Malfunctioned"@),
            ServerError::GeneralNoAccess => Some("Invalid token"@),
            ServerError::BlameUpdate => Some(
                "Irregular form of data: Possibly because of difference in app version and it's no longer supported"@,
            ),
            ServerError::IdentifierTaken => Some("Identifier is already in use"@),
            ServerError::OrphanedNote(id) => Some(
                "Server Error: a note was left without an owner: "@ + id@,
            ),
            ServerError::Default => None,
            ServerError::UserError(_) => None,
            ServerError::InvalidCredentials => None,
            ServerError::NotFound(_) => None,
            ServerError::Unauthorized => None,
        }
    }

    /// The text that goes with the response, for the errors that carry one.
    ///
    /// The two not-found errors and the refusal carry none, so that nothing in
    /// the text tells one cause from another.
    pub fn message(&self) -> (r: Option<String>)
        ensures
            r.is_some() == self.spec_message().is_some(),
            r matches Some(text) ==> Some(text@) == self.spec_message(),
    {
        match self {
            ServerError::DieselError => Some(String::from_str("Library Error: Diesel Error.")),
            ServerError::EnvironmentError => Some(
                String::from_str("Server Error: Use of an uninitialized environment variable."),
            ),
            ServerError::R2D2Error => Some(String::from_str("Server Error: Pooling Error.")),
            ServerError::TinderCryptError => Some(
                String::from_str("Library Error: File Decryption Unsucessful"),
            ),
            ServerError::JWTError => Some(
                String::from_str("Library Error: JWT Library Malfunctioned"),
            ),
            ServerError::GeneralNoAccess => Some(String::from_str("Invalid token")),
            ServerError::BlameUpdate => Some(
                String::from_str(
                    "Irregular form of data: Possibly because of difference in app version and it's no longer supported",
                ),
            ),
            ServerError::IdentifierTaken => Some(String::from_str("Identifier is already in use")),
            ServerError::OrphanedNote(id) => Some(
                String::from_str("Server Error: a note was left without an owner: ").concat(
                    id.as_str(),
                ),
            ),
            ServerError::Default => None,
            ServerError::UserError(_) => None,
            ServerError::InvalidCredentials => None,
            ServerError::NotFound(_) => None,
            ServerError::Unauthorized => None,
        }
    }
}

/// The text that tells a caller that the note `id` was not found.
pub fn not_found_message(id: &str) -> (text: String)
    ensures
        text@ == "note id: "@ + id@ + " was not found"@,
{
    String::from_str("note id: ").concat(id).concat(" was not found")
}

/// A wrong passphrase and a missing note are answered alike, whatever the
/// identifier: same class, and no text.
pub proof fn lemma_wrong_passphrase_looks_like_missing_note(id: String)
    ensures
        ServerError::InvalidCredentials.spec_class() == ServerError::NotFound(id).spec_class(),
        ServerError::InvalidCredentials.spec_message() == ServerError::NotFound(id).spec_message(),
{
}

} // verus!
