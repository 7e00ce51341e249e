//! The passphrase policy: how long a passphrase must and may be.

use vstd::prelude::*;
use vstd::string::StringSliceAdditionalSpecFns;
use vstd::utf8::encode_utf8;

verus! {

/// The shortest passphrase accepted, in bytes.
pub const MIN_PASSPHRASE_LEN: usize = 4;

/// The first length, in bytes, that is too long for a passphrase.
pub const PASSPHRASE_LEN_LIMIT: usize = 1024;

/// Why a passphrase is refused.
#[derive(Clone, Copy, Debug, PartialEq, Eq, Structural)]
pub enum PassphraseFault {
    TooShort,
    TooLong,
}

/// What the policy says of a passphrase of `len` bytes.
pub open spec fn policy_fault(len: nat) -> Option<PassphraseFault> {
    if len < MIN_PASSPHRASE_LEN {
        Some(PassphraseFault::TooShort)
    } else if len >= PASSPHRASE_LEN_LIMIT {
        Some(PassphraseFault::TooLong)
    } else {
        None
    }
}

/// Whether a passphrase of `len` bytes is within the policy.
pub open spec fn within_policy(len: nat) -> bool {
    MIN_PASSPHRASE_LEN <= len < PASSPHRASE_LEN_LIMIT
}

/// A passphrase is within the policy exactly when the policy finds no fault in it.
pub proof fn lemma_policy_fault_iff_outside(len: nat)
    ensures
        policy_fault(len).is_none() <==> within_policy(len),
        policy_fault(len) == Some(PassphraseFault::TooShort) <==> len < 4,
        policy_fault(len) == Some(PassphraseFault::TooLong) <==> len >= 1024,
{
}

/// Checks a passphrase against the policy and names the fault, if any.
pub fn check_passphrase(passphrase: &str) -> (r: Option<PassphraseFault>)
    ensures
        r == policy_fault(passphrase.spec_bytes().len()),
{
    let len: usize = passphrase.as_bytes().len();
    if len < MIN_PASSPHRASE_LEN {
        Some(PassphraseFault::TooShort)
    } else if len >= PASSPHRASE_LEN_LIMIT {
        Some(PassphraseFault::TooLong)
    } else {
        None
    }
}

/// Whether a passphrase is at least 4 and fewer than 1024 bytes long.
pub fn is_valid_passphrase(passphrase: &str) -> (b: bool)
    ensures
        b == within_policy(passphrase.spec_bytes().len()),
{
    let len: usize = passphrase.as_bytes().len();
    MIN_PASSPHRASE_LEN <= len && len < PASSPHRASE_LEN_LIMIT
}

/// Texts that can be held against the passphrase policy.
pub trait Validator {
    /// The number of bytes that the policy counts.
    spec fn byte_len(&self) -> nat;

    /// Whether the text is a passphrase that the policy accepts.
    fn is_valid_passphrase(&self) -> (b: bool)
        ensures
            b == within_policy(self.byte_len()),
    ;
}

impl Validator for String {
    open spec fn byte_len(&self) -> nat {
        encode_utf8(self@).len()
    }

    fn is_valid_passphrase(&self) -> (b: bool) {
        is_valid_passphrase(self.as_str())
    }
}

} // verus!
