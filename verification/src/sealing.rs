//! Passphrase-based sealing and opening of note content.
//!
//! The cryptography is done by `tindercrypt`; this module puts the passphrase
//! policy in front of it and keeps inputs away from it on which it would panic.

use vstd::prelude::*;
use vstd::string::StringSliceAdditionalSpecFns;
use crate::passphrase::{check_passphrase, policy_fault, within_policy, PassphraseFault};

verus! {

/// The error type of `tindercrypt`.
#[verifier::external_type_specification]
#[verifier::external_body]
pub struct ExCryptError(tindercrypt::errors::Error);

/// The largest content, in bytes, that the cipher accepts in one piece.
pub const MAX_CONTENT_LEN: u64 = 68_719_476_704;

/// The number of key-stretching rounds written into every blob sealed here.
pub const SEAL_ROUNDS: u64 = 100_000;

/// Why sealing or opening failed.
#[derive(Clone, Copy, Debug, PartialEq, Eq, Structural)]
pub enum SealError {
    /// The passphrase has fewer than 4 bytes.
    PassphraseTooShort,
    /// The passphrase has 1024 bytes or more.
    PassphraseTooLong,
    /// The passphrase is wrong, or the blob is malformed or was tampered with.
    AuthenticationFailed,
    /// The sealing engine cannot take the content: it is more than the
    /// cipher seals in one piece.
    Engine,
}

/// What `RingCryptor::open` recovers from `sealed` under `secret`, if anything.
pub uninterp spec fn opened(secret: Seq<u8>, sealed: Seq<u8>) -> Option<Seq<u8>>;

/// The number of PBKDF2 rounds that the header of `sealed` asks for, where the
/// header can be read and asks for key stretching.
pub uninterp spec fn stretch_rounds(sealed: Seq<u8>) -> Option<u64>;

/// Whether the round count in the header of `sealed` can be handed to the key
/// derivation, which takes it as a non-zero 32-bit number.
pub open spec fn rounds_usable(sealed: Seq<u8>) -> bool {
    stretch_rounds(sealed) matches Some(n) ==> n % 0x1_0000_0000 != 0
}

/// Calls `tindercrypt::metadata::Metadata::from_buf` and hands out the PBKDF2
/// iteration count of the header it read. Nothing is claimed but that the
/// outcome depends on the bytes alone.
#[verifier::external_body]
fn read_stretch_rounds(sealed: &[u8]) -> (r: Option<u64>)
    ensures
        r == stretch_rounds(sealed@),
{
    match tindercrypt::metadata::Metadata::from_buf(sealed) {
        Ok((meta, _)) => match meta.key_deriv_algo {
            tindercrypt::metadata::KeyDerivationAlgorithm::PBKDF2(kd) => Some(kd.iterations as u64),
            tindercrypt::metadata::KeyDerivationAlgorithm::None => None,
        },
        Err(_) => None,
    }
}

/// Calls `RingCryptor::open`. The call is kept away from headers whose round
/// count truncates to zero, on which the key derivation panics. What comes
/// back depends on the two byte strings alone.
#[verifier::external_body]
fn ring_open(secret: &[u8], sealed: &[u8]) -> (r: Result<Vec<u8>, tindercrypt::errors::Error>)
    requires
        rounds_usable(sealed@),
    ensures
        r matches Ok(plain) ==> opened(secret@, sealed@) == Some(plain@),
        r is Err ==> opened(secret@, sealed@).is_none(),
{
    tindercrypt::cryptors::RingCryptor::new().open(secret, sealed)
}

/// Calls `RingCryptor::seal_with_passphrase`, which draws a fresh salt and
/// nonce on every call. Its source refuses an empty passphrase and nothing
/// else: the key derivation is the one step that can fail, and it fails only
/// for an empty secret. Of every blob it returns, the crate's documentation
/// promises that `open` with the same passphrase gives the plaintext back, and
/// its source writes the default round count into the header. Content over the
/// cipher's limit, on which it panics, is kept away.
#[verifier::external_body]
fn ring_seal(passphrase: &[u8], plaintext: &[u8]) -> (r: Result<Vec<u8>, tindercrypt::errors::Error>)
    requires
        plaintext@.len() <= MAX_CONTENT_LEN,
    ensures
        passphrase@.len() > 0 ==> r is Ok,
        r matches Ok(sealed) ==> opened(passphrase@, sealed@) == Some(plaintext@)
            && stretch_rounds(sealed@) == Some(SEAL_ROUNDS),
{
    tindercrypt::cryptors::RingCryptor::new().seal_with_passphrase(passphrase, plaintext)
}

/// The policy fault as a sealing error.
pub open spec fn fault_error(fault: PassphraseFault) -> SealError {
    match fault {
        PassphraseFault::TooShort => SealError::PassphraseTooShort,
        PassphraseFault::TooLong => SealError::PassphraseTooLong,
    }
}

/// What opening `sealed` with `passphrase` gives: the plaintext where the
/// passphrase is within the policy, the header is usable and the cipher
/// authenticates the blob; an authentication failure in every other case.
pub open spec fn open_outcome(passphrase: Seq<u8>, sealed: Seq<u8>) -> Result<Seq<u8>, SealError> {
    if within_policy(passphrase.len()) && rounds_usable(sealed) {
        match opened(passphrase, sealed) {
            Some(plain) => Ok(plain),
            None => Err(SealError::AuthenticationFailed),
        }
    } else {
        Err(SealError::AuthenticationFailed)
    }
}

/// A blob that the engine sealed under a passphrase within the policy opens,
/// under that passphrase, to the plaintext that was sealed. This is all that
/// `seal` promises of its result, and all that a reader of a note needs.
pub proof fn lemma_sealed_blob_opens(passphrase: Seq<u8>, plaintext: Seq<u8>, sealed: Seq<u8>)
    requires
        within_policy(passphrase.len()),
        opened(passphrase, sealed) == Some(plaintext),
        stretch_rounds(sealed) == Some(SEAL_ROUNDS),
    ensures
        open_outcome(passphrase, sealed) == Ok::<Seq<u8>, SealError>(plaintext),
{
}

/// Opening never succeeds with a passphrase outside the policy, whatever the
/// blob, and never fails in any way but one.
pub proof fn lemma_open_fails_in_one_way(passphrase: Seq<u8>, sealed: Seq<u8>)
    ensures
        !within_policy(passphrase.len()) ==> open_outcome(passphrase, sealed) == Err::<
            Seq<u8>,
            SealError,
        >(SealError::AuthenticationFailed),
        open_outcome(passphrase, sealed) matches Err(e) ==> e == SealError::AuthenticationFailed,
{
}

/// The view of an opening result.
pub open spec fn plain_view(r: Result<Vec<u8>, SealError>) -> Result<Seq<u8>, SealError> {
    match r {
        Ok(plain) => Ok(plain@),
        Err(e) => Err(e),
    }
}

/// Opens a sealed blob with a passphrase.
///
/// Every failure, whatever its cause, is the same `AuthenticationFailed`.
pub fn open(passphrase: &str, sealed: &[u8]) -> (r: Result<Vec<u8>, SealError>)
    ensures
        plain_view(r) == open_outcome(passphrase.spec_bytes(), sealed@),
{
    if check_passphrase(passphrase).is_some() {
        return Err(SealError::AuthenticationFailed);
    }
    match read_stretch_rounds(sealed) {
        Some(n) => {
            if n % 0x1_0000_0000 == 0 {
                return Err(SealError::AuthenticationFailed);
            }
        },
        None => {},
    }
    match ring_open(passphrase.as_bytes(), sealed) {
        Ok(plain) => Ok(plain),
        Err(_) => Err(SealError::AuthenticationFailed),
    }
}

/// Whether sealing is owed: the passphrase is within the policy and the
/// content within what the cipher takes in one piece.
pub open spec fn sealable(passphrase: Seq<u8>, plaintext: Seq<u8>) -> bool {
    within_policy(passphrase.len()) && plaintext.len() <= MAX_CONTENT_LEN
}

/// The error that sealing ends in, where it does: the passphrase's fault
/// first, then content beyond the cipher's limit.
pub open spec fn seal_refusal(passphrase: Seq<u8>, plaintext: Seq<u8>) -> Option<SealError> {
    match policy_fault(passphrase.len()) {
        Some(fault) => Some(fault_error(fault)),
        None => if plaintext.len() > MAX_CONTENT_LEN {
            Some(SealError::Engine)
        } else {
            None
        },
    }
}

/// Seals `plaintext` under `passphrase`.
///
/// A passphrase outside the policy is refused with its fault, and content
/// beyond the cipher's limit with `Engine`. Every other input is sealed, and
/// the blob opens, under the same passphrase, to the plaintext. The engine
/// draws fresh randomness on each call, so the blob itself is not determined
/// by the arguments.
pub fn seal(passphrase: &str, plaintext: &[u8]) -> (r: Result<Vec<u8>, SealError>)
    ensures
        match seal_refusal(passphrase.spec_bytes(), plaintext@) {
            Some(e) => r == Err::<Vec<u8>, SealError>(e),
            None => r is Ok,
        },
        sealable(passphrase.spec_bytes(), plaintext@) <==> r is Ok,
        r matches Ok(sealed) ==> open_outcome(passphrase.spec_bytes(), sealed@) == Ok::<
            Seq<u8>,
            SealError,
        >(plaintext@),
{
    match check_passphrase(passphrase) {
        Some(PassphraseFault::TooShort) => return Err(SealError::PassphraseTooShort),
        Some(PassphraseFault::TooLong) => return Err(SealError::PassphraseTooLong),
        None => {},
    }
    if plaintext.len() as u64 > MAX_CONTENT_LEN {
        return Err(SealError::Engine);
    }
    match ring_seal(passphrase.as_bytes(), plaintext) {
        Ok(sealed) => {
            proof {
                lemma_sealed_blob_opens(passphrase.spec_bytes(), plaintext@, sealed@);
            }
            Ok(sealed)
        },
        Err(_) => Err(SealError::Engine),
    }
}

} // verus!
