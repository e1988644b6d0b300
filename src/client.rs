//! The relying party: its registration with a provider, the provider's keys,
//! and the verification of the identity tokens it receives.
use vstd::prelude::*;
use crate::claims::{validate_claims, validation_result, Claims, ValidationContext};
use crate::error::{Error, Userinfo};
use crate::keys::KeySet;
use crate::token::{decode_compact, decoding, is_decoded_as, IdToken};

verus! {

/// A client registered with an OpenID provider.
#[derive(Debug, Clone)]
pub struct Client {
    pub client_id: String,
    pub client_secret: String,
    pub redirect_uri: Option<String>,
    /// The issuer that the provider's tokens must name.
    pub issuer: String,
    /// The provider's keys; without them tokens are left undecoded.
    pub jwks: Option<KeySet>,
}

/// The context in which a client validates claims.
pub open spec fn context_of(
    client: Client,
    nonce: Option<String>,
    max_age: Option<i64>,
    now: i64,
) -> ValidationContext {
    ValidationContext {
        client_id: client.client_id,
        expected_issuer: client.issuer,
        nonce,
        max_age,
        current_time: now,
    }
}

impl Client {
    pub fn new(
        client_id: String,
        client_secret: String,
        redirect_uri: Option<String>,
        issuer: String,
        jwks: Option<KeySet>,
    ) -> (r: Client)
        ensures
            r == (Client { client_id, client_secret, redirect_uri, issuer, jwks }),
    {
        Client { client_id, client_secret, redirect_uri, issuer, jwks }
    }

    /// The redirect URI the client was registered with.
    pub fn redirect_url(&self) -> (r: &str)
        requires
            self.redirect_uri is Some,
        ensures
            r@ == self.redirect_uri->Some_0@,
    {
        match &self.redirect_uri {
            Some(u) => u.as_str(),
            None => "",
        }
    }

    /// Turns an encoded token into a decoded one, once its signature has
    /// verified against the provider's keys. A decoded token is left as it
    /// is; without keys the token stays encoded; on failure it is unchanged.
    pub fn decode_token(&self, token: &mut IdToken) -> (r: Result<(), Error>)
        ensures
            match *old(token) {
                IdToken::Decoded { .. } => r is Ok && *final(token) == *old(token),
                IdToken::Encoded(s) => match self.jwks {
                    None => r is Ok && *final(token) == *old(token),
                    Some(ks) => match decoding(ks.keys@, s@) {
                        Ok(d) => r is Ok && is_decoded_as(*final(token), d),
                        Err(f) => r matches Err(e) && e.is_failure(f) && *final(token)
                            == *old(token),
                    },
                },
            },
    {
        let decoded = match &*token {
            IdToken::Decoded { .. } => return Ok(()),
            IdToken::Encoded(s) => match &self.jwks {
                None => return Ok(()),
                Some(ks) => decode_compact(ks, s.as_str()),
            },
        };
        match decoded {
            Ok(t) => {
                *token = t;
                Ok(())
            },
            Err(e) => Err(e),
        }
    }

    /// Applies the claims policy with this client's identifier and issuer,
    /// the nonce and maximum age of the authorization request, and the time
    /// `now` (seconds since the epoch).
    pub fn validate_token(
        &self,
        claims: &Claims,
        nonce: &Option<String>,
        max_age: Option<i64>,
        now: i64,
    ) -> (r: Result<(), Error>)
        ensures
            r == validation_result(*claims, context_of(*self, *nonce, max_age, now)),
    {
        let ctx = ValidationContext {
            client_id: self.client_id.clone(),
            expected_issuer: self.issuer.clone(),
            nonce: nonce.clone(),
            max_age,
            current_time: now,
        };
        validate_claims(claims, &ctx)
    }
}

/// A user-information document must describe the token's own subject, where
/// it names one at all.
pub fn check_userinfo_subject(token_subject: &String, info_subject: &Option<String>) -> (r: Result<(), Error>)
    ensures
        match info_subject {
            Some(s) => if s@ == token_subject@ {
                r is Ok
            } else {
                r == Err::<(), Error>(
                    Error::Userinfo(
                        Userinfo::MismatchSubject { expected: *s, actual: *token_subject },
                    ),
                )
            },
            None => r is Ok,
        },
{
    match info_subject {
        Some(s) => {
            if *token_subject != *s {
                Err(
                    Error::Userinfo(
                        Userinfo::MismatchSubject { expected: s.clone(), actual: token_subject.clone() },
                    ),
                )
            } else {
                Ok(())
            }
        },
        None => Ok(()),
    }
}

/// The refresh token to keep after a refresh: the new one, or the old one
/// where the provider sent none.
pub fn kept_refresh_token(fresh: Option<String>, previous: &Option<String>) -> (r: Option<String>)
    ensures
        r == (if fresh is Some {
            fresh
        } else {
            *previous
        }),
{
    match fresh {
        Some(t) => Some(t),
        None => previous.clone(),
    }
}

} // verus!
