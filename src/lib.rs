//! Verification of OpenID Connect identity tokens: key selection, signature
//! checking and the claims policy a relying party applies.
pub mod algorithm;
pub mod claims;
pub mod client;
pub mod error;
pub mod keys;
pub mod options;
pub mod token;

pub use algorithm::{KeyAlgorithm, SignatureAlgorithm};
pub use claims::{validate_claims, Audience, Claims, Profile, ValidationContext};
pub use client::{check_userinfo_subject, kept_refresh_token, Client};
pub use error::{Decode, Error, Expiry, Jose, Mismatch, Missing, Userinfo, Validation};
pub use keys::{Key, KeyMaterial, KeySet};
pub use options::{prompt_param, scope_param, Address, Display, Options, Prompt};
pub use token::{decode_compact, Header, IdToken};
