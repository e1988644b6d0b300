//! The ways in which decoding, validating and fetching user information fail.
use vstd::prelude::*;

verus! {

/// Key selection failures.
#[derive(Debug, Clone, PartialEq, Eq)]
pub enum Decode {
    /// The key set holds several keys and the token header names none.
    MissingKid,
    /// No key of the set carries the identifier that the token header names.
    MissingKey(String),
    /// The key set holds no key at all.
    EmptySet,
    /// The selected key is an elliptic-curve key, which cannot verify tokens.
    UnsupportedKeyType,
}

/// Failures of the signed-token layer.
#[derive(Debug, Clone, PartialEq, Eq)]
pub enum Jose {
    /// The key cannot be used with the algorithm that the token declares.
    WrongKeyType { expected: String, actual: String },
    /// The token is malformed, or its signature does not verify.
    Rejected,
    /// The token has not been decoded, so its claims cannot be trusted.
    NotDecoded,
}

/// A claim that differs from what the relying party expected.
#[derive(Debug, Clone, PartialEq, Eq)]
pub enum Mismatch {
    AuthorizedParty { expected: String, actual: String },
    Issuer { expected: String, actual: String },
    Nonce { expected: String, actual: String },
}

/// A claim that is absent although the relying party needs it (or the
/// reverse, for the nonce).
#[derive(Debug, Clone, Copy, PartialEq, Eq, Structural)]
pub enum Missing {
    Audience,
    AuthorizedParty,
    AuthTime,
    Nonce,
}

/// A token that is too old.
#[derive(Debug, Clone, Copy, PartialEq, Eq, Structural)]
pub enum Expiry {
    /// The token expired at this time (seconds since the epoch).
    Expires(i64),
    /// The end user authenticated this many seconds ago, which is too long.
    MaxAge(i128),
}

/// Claims policy failures.
#[derive(Debug, Clone, PartialEq, Eq)]
pub enum Validation {
    Mismatch(Mismatch),
    Missing(Missing),
    Expired(Expiry),
}

/// Failures of the user-information check.
#[derive(Debug, Clone, PartialEq, Eq)]
pub enum Userinfo {
    /// The provider publishes no user-information endpoint.
    NoUrl,
    /// The user-information document describes another subject than the token.
    MismatchSubject { expected: String, actual: String },
}

/// Every failure of the library.
#[derive(Debug, Clone, PartialEq, Eq)]
pub enum Error {
    Decode(Decode),
    Jose(Jose),
    Validation(Validation),
    Userinfo(Userinfo),
}

/// A decoding failure, with its texts as character sequences.
pub enum DecodeFailure {
    EmptySet,
    MissingKid,
    MissingKey(Seq<char>),
    WrongKeyType(Seq<char>, Seq<char>),
    UnsupportedKeyType,
    Rejected,
}

impl Error {
    /// This error is the failure `f`.
    pub open spec fn is_failure(self, f: DecodeFailure) -> bool {
        match f {
            DecodeFailure::EmptySet => self == Error::Decode(Decode::EmptySet),
            DecodeFailure::MissingKid => self == Error::Decode(Decode::MissingKid),
            DecodeFailure::MissingKey(kid) => self matches Error::Decode(Decode::MissingKey(k))
                && k@ == kid,
            DecodeFailure::WrongKeyType(expected, actual) => self matches Error::Jose(
                Jose::WrongKeyType { expected: e, actual: a },
            ) && e@ == expected && a@ == actual,
            DecodeFailure::UnsupportedKeyType => self == Error::Decode(Decode::UnsupportedKeyType),
            DecodeFailure::Rejected => self == Error::Jose(Jose::Rejected),
        }
    }
}

} // verus!
