//! The claims of a verified identity token and the relying party's policy on them.
use vstd::prelude::*;
use crate::error::{Error, Expiry, Mismatch, Missing, Validation};
use crate::options::Address;

verus! {

/// The audience claim: one client or several.
#[derive(Debug, Clone, PartialEq, Eq)]
pub enum Audience {
    Single(String),
    Multiple(Vec<String>),
}

/// `id` is one of the texts `v`.
pub open spec fn texts_hold(v: Seq<String>, id: Seq<char>) -> bool {
    exists|i: int| 0 <= i < v.len() && (#[trigger] v[i])@ == id
}

impl Audience {
    /// `id` is one of the audiences.
    pub open spec fn holds(self, id: Seq<char>) -> bool {
        match self {
            Audience::Single(a) => a@ == id,
            Audience::Multiple(v) => texts_hold(v@, id),
        }
    }

    pub fn contains(&self, id: &String) -> (r: bool)
        ensures
            r == self.holds(id@),
    {
        match self {
            Audience::Single(a) => *a == *id,
            Audience::Multiple(v) => {
                let mut i: usize = 0;
                while i < v.len()
                    invariant
                        *self == Audience::Multiple(*v),
                        0 <= i <= v@.len(),
                        forall|j: int| 0 <= j < i ==> (#[trigger] v@[j])@ != id@,
                    decreases v@.len() - i,
                {
                    if v[i] == *id {
                        assert(v@[i as int]@ == id@);
                        assert(texts_hold(v@, id@));
                        return true;
                    }
                    i = i + 1;
                }
                false
            },
        }
    }
}

/// Profile and contact claims: carried with the token, never read by the
/// policy.
#[derive(Debug, Clone, PartialEq, Eq, Default)]
pub struct Profile {
    pub name: Option<String>,
    pub given_name: Option<String>,
    pub family_name: Option<String>,
    pub middle_name: Option<String>,
    pub nickname: Option<String>,
    pub preferred_username: Option<String>,
    pub profile: Option<String>,
    pub picture: Option<String>,
    pub website: Option<String>,
    pub email: Option<String>,
    pub email_verified: Option<bool>,
    pub gender: Option<String>,
    pub birthdate: Option<String>,
    pub zoneinfo: Option<String>,
    pub locale: Option<String>,
    pub phone_number: Option<String>,
    pub phone_number_verified: Option<bool>,
    pub address: Option<Address>,
    pub updated_at: Option<i64>,
}

/// The claims of an identity token. Times are seconds since the epoch.
#[derive(Debug, Clone, PartialEq, Eq)]
pub struct Claims {
    pub issuer: String,
    pub subject: String,
    pub audience: Audience,
    pub authorized_party: Option<String>,
    pub expiry: i64,
    pub issued_at: i64,
    pub nonce: Option<String>,
    pub auth_time: Option<i64>,
    pub profile: Profile,
}

/// What the relying party expects of a token, and the time now.
#[derive(Debug, Clone, PartialEq, Eq)]
pub struct ValidationContext {
    pub client_id: String,
    pub expected_issuer: String,
    pub nonce: Option<String>,
    /// The longest time, in seconds, since the end user authenticated.
    pub max_age: Option<i64>,
    /// The time now, in seconds since the epoch.
    pub current_time: i64,
}

/// The nonce rule: both absent, or both present and equal.
pub open spec fn nonce_violation(expected: Option<String>, actual: Option<String>) -> Option<Validation> {
    match (expected, actual) {
        (Some(e), Some(a)) => if e@ == a@ {
            None
        } else {
            Some(Validation::Mismatch(Mismatch::Nonce { expected: e, actual: a }))
        },
        (Some(_), None) => Some(Validation::Missing(Missing::Nonce)),
        (None, Some(_)) => Some(Validation::Missing(Missing::Nonce)),
        (None, None) => None,
    }
}

/// The audience names more than one client; a list of one counts as a
/// single audience.
pub open spec fn is_multi_valued(a: Audience) -> bool {
    a matches Audience::Multiple(v) && v@.len() > 1
}

/// The authorized-party rule: several audiences need one, and one that is
/// present must be this client.
pub open spec fn authorized_party_violation(claims: Claims, client_id: String) -> Option<Validation> {
    if is_multi_valued(claims.audience) && claims.authorized_party is None {
        Some(Validation::Missing(Missing::AuthorizedParty))
    } else {
        match claims.authorized_party {
            Some(a) => if a@ == client_id@ {
                None
            } else {
                Some(
                    Validation::Mismatch(
                        Mismatch::AuthorizedParty { expected: client_id, actual: a },
                    ),
                )
            },
            None => None,
        }
    }
}

/// The authentication-age rule, where a maximum age is asked for.
pub open spec fn max_age_violation(claims: Claims, ctx: ValidationContext) -> Option<Validation> {
    match ctx.max_age {
        None => None,
        Some(max) => match claims.auth_time {
            None => Some(Validation::Missing(Missing::AuthTime)),
            Some(t) => if ctx.current_time - t >= max {
                Some(Validation::Expired(Expiry::MaxAge((ctx.current_time - t) as i128)))
            } else {
                None
            },
        },
    }
}

/// The expiry and authentication-age rules.
pub open spec fn time_violation(claims: Claims, ctx: ValidationContext) -> Option<Validation> {
    if ctx.current_time >= claims.expiry {
        Some(Validation::Expired(Expiry::Expires(claims.expiry)))
    } else {
        max_age_violation(claims, ctx)
    }
}

/// The rules that follow the issuer and nonce rules, in order.
pub open spec fn audience_and_time_violation(claims: Claims, ctx: ValidationContext) -> Option<Validation> {
    if !claims.audience.holds(ctx.client_id@) {
        Some(Validation::Missing(Missing::Audience))
    } else if authorized_party_violation(claims, ctx.client_id) is Some {
        authorized_party_violation(claims, ctx.client_id)
    } else {
        time_violation(claims, ctx)
    }
}

/// The first rule, in the policy's fixed order, that the claims break.
pub open spec fn first_violation(claims: Claims, ctx: ValidationContext) -> Option<Validation> {
    if claims.issuer@ != ctx.expected_issuer@ {
        Some(
            Validation::Mismatch(
                Mismatch::Issuer { expected: ctx.expected_issuer, actual: claims.issuer },
            ),
        )
    } else if nonce_violation(ctx.nonce, claims.nonce) is Some {
        nonce_violation(ctx.nonce, claims.nonce)
    } else {
        audience_and_time_violation(claims, ctx)
    }
}

/// The outcome of the policy: `Ok` exactly when no rule is broken.
pub open spec fn validation_result(claims: Claims, ctx: ValidationContext) -> Result<(), Error> {
    match first_violation(claims, ctx) {
        None => Ok(()),
        Some(v) => Err(Error::Validation(v)),
    }
}

fn check_nonce(expected: &Option<String>, actual: &Option<String>) -> (r: Option<Validation>)
    ensures
        r == nonce_violation(*expected, *actual),
{
    match (expected, actual) {
        (Some(e), Some(a)) => {
            if *e == *a {
                None
            } else {
                Some(Validation::Mismatch(Mismatch::Nonce { expected: e.clone(), actual: a.clone() }))
            }
        },
        (Some(_), None) => Some(Validation::Missing(Missing::Nonce)),
        (None, Some(_)) => Some(Validation::Missing(Missing::Nonce)),
        (None, None) => None,
    }
}

fn check_authorized_party(claims: &Claims, client_id: &String) -> (r: Option<Validation>)
    ensures
        r == authorized_party_violation(*claims, *client_id),
{
    if let Audience::Multiple(v) = &claims.audience {
        if v.len() > 1 && claims.authorized_party.is_none() {
            return Some(Validation::Missing(Missing::AuthorizedParty));
        }
    }
    match &claims.authorized_party {
        Some(a) => {
            if *a == *client_id {
                None
            } else {
                Some(
                    Validation::Mismatch(
                        Mismatch::AuthorizedParty { expected: client_id.clone(), actual: a.clone() },
                    ),
                )
            }
        },
        None => None,
    }
}

fn check_max_age(claims: &Claims, ctx: &ValidationContext) -> (r: Option<Validation>)
    ensures
        r == max_age_violation(*claims, *ctx),
{
    match ctx.max_age {
        None => None,
        Some(max) => match claims.auth_time {
            None => Some(Validation::Missing(Missing::AuthTime)),
            Some(t) => {
                let age: i128 = ctx.current_time as i128 - t as i128;
                if age >= max as i128 {
                    Some(Validation::Expired(Expiry::MaxAge(age)))
                } else {
                    None
                }
            },
        },
    }
}

/// Applies the claims policy. The rules run in a fixed order and the first
/// one broken is reported: issuer, nonce, audience, authorized party, expiry
/// (a token expiring now has expired), authentication age (an age equal to
/// the maximum is too old).
pub fn validate_claims(claims: &Claims, ctx: &ValidationContext) -> (r: Result<(), Error>)
    ensures
        r == validation_result(*claims, *ctx),
{
    if claims.issuer != ctx.expected_issuer {
        return Err(
            Error::Validation(
                Validation::Mismatch(
                    Mismatch::Issuer {
                        expected: ctx.expected_issuer.clone(),
                        actual: claims.issuer.clone(),
                    },
                ),
            ),
        );
    }
    if let Some(v) = check_nonce(&ctx.nonce, &claims.nonce) {
        return Err(Error::Validation(v));
    }
    if !claims.audience.contains(&ctx.client_id) {
        return Err(Error::Validation(Validation::Missing(Missing::Audience)));
    }
    if let Some(v) = check_authorized_party(claims, &ctx.client_id) {
        return Err(Error::Validation(v));
    }
    if ctx.current_time >= claims.expiry {
        return Err(Error::Validation(Validation::Expired(Expiry::Expires(claims.expiry))));
    }
    match check_max_age(claims, ctx) {
        Some(v) => Err(Error::Validation(v)),
        None => Ok(()),
    }
}

/// A token from another issuer is refused for that reason, whatever else it
/// holds, and the error carries the expected and the actual issuer.
pub proof fn issuer_mismatch_is_reported(claims: Claims, ctx: ValidationContext)
    requires
        claims.issuer@ != ctx.expected_issuer@,
    ensures
        validation_result(claims, ctx) == Err::<(), Error>(
            Error::Validation(
                Validation::Mismatch(
                    Mismatch::Issuer { expected: ctx.expected_issuer, actual: claims.issuer },
                ),
            ),
        ),
{
}

/// The nonce must be present on both sides or on neither: one without the
/// other is a missing nonce, two different ones a mismatch, and two equal
/// ones (or none at all) leave the outcome to the later rules.
pub proof fn nonce_is_presence_symmetric(claims: Claims, ctx: ValidationContext)
    requires
        claims.issuer@ == ctx.expected_issuer@,
    ensures
        ctx.nonce is Some && claims.nonce is None ==> validation_result(claims, ctx) == Err::<
            (),
            Error,
        >(Error::Validation(Validation::Missing(Missing::Nonce))),
        ctx.nonce is None && claims.nonce is Some ==> validation_result(claims, ctx) == Err::<
            (),
            Error,
        >(Error::Validation(Validation::Missing(Missing::Nonce))),
        forall|x: String, y: String|
            ctx.nonce == Some(x) && claims.nonce == Some(y) && x@ != y@ ==> validation_result(
                claims,
                ctx,
            ) == Err::<(), Error>(
                Error::Validation(Validation::Mismatch(Mismatch::Nonce { expected: x, actual: y })),
            ),
        (ctx.nonce is None && claims.nonce is None) || (ctx.nonce matches Some(x)
            && claims.nonce matches Some(y) && x@ == y@) ==> first_violation(claims, ctx)
            == audience_and_time_violation(claims, ctx),
{
}

/// Several audiences need an authorized party; an authorized party other than
/// this client is a mismatch; a single audience (or a list of one) without one
/// passes the rule.
pub proof fn authorized_party_rule(claims: Claims, ctx: ValidationContext)
    requires
        claims.issuer@ == ctx.expected_issuer@,
        nonce_violation(ctx.nonce, claims.nonce) is None,
        claims.audience.holds(ctx.client_id@),
    ensures
        is_multi_valued(claims.audience) && claims.authorized_party is None ==> validation_result(
            claims,
            ctx,
        ) == Err::<(), Error>(Error::Validation(Validation::Missing(Missing::AuthorizedParty))),
        forall|a: String|
            claims.authorized_party == Some(a) && a@ != ctx.client_id@ ==> validation_result(
                claims,
                ctx,
            ) == Err::<(), Error>(
                Error::Validation(
                    Validation::Mismatch(
                        Mismatch::AuthorizedParty { expected: ctx.client_id, actual: a },
                    ),
                ),
            ),
        !is_multi_valued(claims.audience) && claims.authorized_party is None ==> first_violation(
            claims,
            ctx,
        ) == time_violation(claims, ctx),
{
}

/// A token that expires exactly now has expired.
pub proof fn expiry_is_inclusive(claims: Claims, ctx: ValidationContext)
    requires
        claims.issuer@ == ctx.expected_issuer@,
        nonce_violation(ctx.nonce, claims.nonce) is None,
        claims.audience.holds(ctx.client_id@),
        authorized_party_violation(claims, ctx.client_id) is None,
        ctx.current_time == claims.expiry,
    ensures
        validation_result(claims, ctx) == Err::<(), Error>(
            Error::Validation(Validation::Expired(Expiry::Expires(claims.expiry))),
        ),
{
}

/// An authentication exactly as old as the maximum age is too old.
pub proof fn max_age_is_inclusive(claims: Claims, ctx: ValidationContext, max: i64, auth_time: i64)
    requires
        claims.issuer@ == ctx.expected_issuer@,
        nonce_violation(ctx.nonce, claims.nonce) is None,
        claims.audience.holds(ctx.client_id@),
        authorized_party_violation(claims, ctx.client_id) is None,
        ctx.current_time < claims.expiry,
        ctx.max_age == Some(max),
        claims.auth_time == Some(auth_time),
        ctx.current_time - auth_time == max,
    ensures
        validation_result(claims, ctx) == Err::<(), Error>(
            Error::Validation(Validation::Expired(Expiry::MaxAge(max as i128))),
        ),
{
}

} // verus!
