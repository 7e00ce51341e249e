//! Ephemeral, optionally sealed notes with stateless proof of ownership.

pub mod claims;
pub mod errors;
pub mod ident;
pub mod lifecycle;
pub mod note;
pub mod passphrase;
pub mod plain_note;
pub mod sealing;
pub mod search;
pub mod text;
pub mod time;
pub mod token;
