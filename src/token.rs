//! Identity tokens: the unverified header, signature verification, and the
//! one-way step from an encoded token to a decoded one.
use vstd::prelude::*;
use biscuit::jws::{Compact, Secret};
use biscuit::errors::Error as JoseError;
use biscuit::Empty;
use num::BigUint;
use crate::algorithm::{opt_text, KeyAlgorithm, SignatureAlgorithm};
use crate::error::{Decode, DecodeFailure, Error, Jose};
use crate::keys::{declared_algorithm_check, family_check, selection, Key, KeyBytes, KeyMaterial, KeySet};

verus! {

#[verifier::external_type_specification]
#[verifier::external_body]
pub struct ExJoseError(JoseError);

/// The algorithm name and key identifier that the header of a compact token
/// declares, or `None` where the header cannot be read.
pub uninterp spec fn header_of(token: Seq<char>) -> Option<(Seq<char>, Option<Seq<char>>)>;

/// The payload of a compact token whose signature verifies under `key`, with
/// the algorithm that the token's header declares; `None` where it does not.
pub uninterp spec fn verified_payload(token: Seq<char>, key: KeyBytes) -> Option<Seq<u8>>;

/// Relies on biscuit's `jws::Compact::unverified_header`: it decodes the first
/// part of the token and checks nothing, so the outcome depends on the token
/// text alone. The algorithm comes back under its derived `Debug` name, which
/// is the name of one of the thirteen variants of biscuit's
/// `jwa::SignatureAlgorithm`.
#[verifier::external_body]
fn read_header(token: &str) -> (r: Result<(String, Option<String>), JoseError>)
    ensures
        match r {
            Ok((name, kid)) => header_of(token@) == Some((name@, opt_text(kid)))
                && SignatureAlgorithm::spec_from_name(name@) is Some,
            Err(_) => header_of(token@) is None,
        },
{
    let compact: Compact<Vec<u8>, Empty> = Compact::new_encoded(token);
    let header = compact.unverified_header()?;
    Ok((format!("{:?}", header.registered.algorithm), header.registered.key_id))
}

/// Relies on biscuit's `jws::Compact::decode`, given the algorithm that the
/// token's own header declares: it returns the payload only where the
/// signature verifies under the key, and the outcome depends on the token
/// text and the key alone. Biscuit reaches `unreachable!` where the key does
/// not suit the algorithm's family, so that case is left out. RSA parts become `num::BigUint` by
/// `BigUint::from_bytes_be`.
#[verifier::external_body]
fn verify_signature(token: &str, key: &KeyMaterial) -> (r: Result<Vec<u8>, JoseError>)
    requires
        header_of(token@) matches Some((name, _)) && SignatureAlgorithm::spec_from_name(name) matches Some(
            alg,
        ) && family_check(key@, alg) is None && !(key@ is EllipticCurve),
    ensures
        match r {
            Ok(payload) => verified_payload(token@, key@) == Some(payload@),
            Err(_) => verified_payload(token@, key@) is None,
        },
{
    let secret = match key {
        KeyMaterial::Symmetric(bytes) => Secret::Bytes(bytes.clone()),
        KeyMaterial::Rsa { modulus, exponent } => Secret::RSAModulusExponent {
            n: BigUint::from_bytes_be(modulus),
            e: BigUint::from_bytes_be(exponent),
        },
        KeyMaterial::EllipticCurve => Secret::None,
    };
    let compact: Compact<Vec<u8>, Empty> = Compact::new_encoded(token);
    let alg = compact.unverified_header()?.registered.algorithm;
    match compact.decode(&secret, alg)? {
        Compact::Decoded { payload, .. } => Ok(payload),
        Compact::Encoded(_) => Err(JoseError::UnsupportedOperation),
    }
}

/// The header of a token, as far as verification reads it.
#[derive(Debug, Clone, PartialEq, Eq)]
pub struct Header {
    pub algorithm: SignatureAlgorithm,
    pub key_id: Option<String>,
}

/// An identity token: encoded and untrusted, or decoded after its signature
/// verified, with its payload (the claims, as JSON) then trusted.
#[derive(Debug, Clone, PartialEq, Eq)]
pub enum IdToken {
    Encoded(String),
    Decoded { header: Header, payload: Vec<u8> },
}

/// The outcome of decoding `token` against `keys`: the key is selected from the
/// unverified header, the key's family and then its own declared algorithm are
/// checked against the header's algorithm, an elliptic-curve key is refused,
/// and only then is the signature verified.
pub open spec fn decoding(keys: Seq<Key>, token: Seq<char>) -> Result<(SignatureAlgorithm, Option<Seq<char>>, Seq<u8>), DecodeFailure> {
    match header_of(token) {
        None => Err(DecodeFailure::Rejected),
        Some((name, kid)) => match SignatureAlgorithm::spec_from_name(name) {
            None => Err(DecodeFailure::Rejected),
            Some(alg) => match selection(keys, kid) {
                Err(f) => Err(f),
                Ok(i) => match family_check(keys[i].material@, alg) {
                    Some(f) => Err(f),
                    None => match declared_algorithm_check(keys[i], alg) {
                        Some(f) => Err(f),
                        None => if keys[i].material@ is EllipticCurve {
                            Err(DecodeFailure::UnsupportedKeyType)
                        } else {
                            match verified_payload(token, keys[i].material@) {
                                None => Err(DecodeFailure::Rejected),
                                Some(p) => Ok((alg, kid, p)),
                            }
                        },
                    },
                },
            },
        },
    }
}

/// `t` is the decoded token that the outcome `d` describes.
pub open spec fn is_decoded_as(t: IdToken, d: (SignatureAlgorithm, Option<Seq<char>>, Seq<u8>)) -> bool {
    t matches IdToken::Decoded { header, payload } && header.algorithm == d.0 && opt_text(
        header.key_id,
    ) == d.1 && payload@ == d.2
}

/// Verifies the compact token `token` against `keys` and returns it decoded.
pub fn decode_compact(keys: &KeySet, token: &str) -> (r: Result<IdToken, Error>)
    ensures
        match decoding(keys.keys@, token@) {
            Ok(d) => r matches Ok(t) && is_decoded_as(t, d),
            Err(f) => r matches Err(e) && e.is_failure(f),
        },
{
    let (name, key_id) = match read_header(token) {
        Ok(h) => h,
        Err(_) => return Err(Error::Jose(Jose::Rejected)),
    };
    let algorithm = match SignatureAlgorithm::from_name(name.as_str()) {
        Some(a) => a,
        None => return Err(Error::Jose(Jose::Rejected)),
    };
    let key = keys.select(&key_id)?;
    key.check_family(algorithm)?;
    key.check_declared_algorithm(algorithm)?;
    if let KeyMaterial::EllipticCurve = &key.material {
        return Err(Error::Decode(Decode::UnsupportedKeyType));
    }
    match verify_signature(token, &key.material) {
        Ok(payload) => Ok(IdToken::Decoded { header: Header { algorithm, key_id }, payload }),
        Err(_) => Err(Error::Jose(Jose::Rejected)),
    }
}

impl IdToken {
    /// The trusted payload of a decoded token.
    pub fn payload(&self) -> (r: Result<&Vec<u8>, Error>)
        ensures
            match self {
                IdToken::Decoded { payload, .. } => r == Ok::<&Vec<u8>, Error>(payload),
                IdToken::Encoded(_) => r == Err::<&Vec<u8>, Error>(Error::Jose(Jose::NotDecoded)),
            },
    {
        match self {
            IdToken::Decoded { payload, .. } => Ok(payload),
            IdToken::Encoded(_) => Err(Error::Jose(Jose::NotDecoded)),
        }
    }

    /// The header of a decoded token.
    pub fn header(&self) -> (r: Result<&Header, Error>)
        ensures
            match self {
                IdToken::Decoded { header, .. } => r == Ok::<&Header, Error>(header),
                IdToken::Encoded(_) => r == Err::<&Header, Error>(Error::Jose(Jose::NotDecoded)),
            },
    {
        match self {
            IdToken::Decoded { header, .. } => Ok(header),
            IdToken::Encoded(_) => Err(Error::Jose(Jose::NotDecoded)),
        }
    }
}

/// With a single key in the set, key selection never fails: the key is used
/// whether or not the header names one, and decoding can only fail on the
/// algorithm checks or the signature.
pub proof fn single_key_needs_no_key_id(keys: Seq<Key>, token: Seq<char>, kid: Seq<char>)
    requires
        keys.len() == 1,
    ensures
        selection(keys, None) == Ok::<int, DecodeFailure>(0),
        selection(keys, Some(kid)) == Ok::<int, DecodeFailure>(0),
        !(decoding(keys, token) matches Err(DecodeFailure::EmptySet)),
        !(decoding(keys, token) matches Err(DecodeFailure::MissingKid)),
        !(decoding(keys, token) matches Err(DecodeFailure::MissingKey(_))),
{
}

/// With several keys, a token whose header names no key is refused for that
/// reason.
pub proof fn several_keys_need_key_id(keys: Seq<Key>, token: Seq<char>, name: Seq<char>)
    requires
        keys.len() > 1,
        header_of(token) == Some((name, None::<Seq<char>>)),
        SignatureAlgorithm::spec_from_name(name) is Some,
    ensures
        decoding(keys, token) == Err::<(SignatureAlgorithm, Option<Seq<char>>, Seq<u8>), DecodeFailure>(
            DecodeFailure::MissingKid,
        ),
{
}

/// A key that declares one algorithm refuses a token that declares another,
/// before any signature is looked at: the outcome does not depend on whether
/// the signature verifies. The error names the token's algorithm, and, where
/// the key's family suits it, the key's own algorithm as the one expected.
pub proof fn declared_algorithm_checked_first(
    keys: Seq<Key>,
    token: Seq<char>,
    name: Seq<char>,
    kid: Option<Seq<char>>,
    i: int,
    declared: SignatureAlgorithm,
    alg: SignatureAlgorithm,
)
    requires
        header_of(token) == Some((name, kid)),
        SignatureAlgorithm::spec_from_name(name) == Some(alg),
        selection(keys, kid) == Ok::<int, DecodeFailure>(i),
        keys[i].algorithm == Some(KeyAlgorithm::Signature(declared)),
        declared != alg,
    ensures
        decoding(keys, token) matches Err(DecodeFailure::WrongKeyType(_, actual)) && actual
            == alg.spec_name(),
        family_check(keys[i].material@, alg) is None ==> decoding(keys, token) == Err::<
            (SignatureAlgorithm, Option<Seq<char>>, Seq<u8>),
            DecodeFailure,
        >(DecodeFailure::WrongKeyType(declared.spec_name(), alg.spec_name())),
{
}

/// A key of the token's algorithm family that declares a use other than
/// signing refuses the token, before
/// any signature is looked at, and the error names the key's declared use and
/// the token's algorithm.
pub proof fn non_signature_key_refused(
    keys: Seq<Key>,
    token: Seq<char>,
    name: Seq<char>,
    kid: Option<Seq<char>>,
    i: int,
    declared: String,
    alg: SignatureAlgorithm,
)
    requires
        header_of(token) == Some((name, kid)),
        SignatureAlgorithm::spec_from_name(name) == Some(alg),
        selection(keys, kid) == Ok::<int, DecodeFailure>(i),
        family_check(keys[i].material@, alg) is None,
        keys[i].algorithm == Some(KeyAlgorithm::Other(declared)),
    ensures
        decoding(keys, token) == Err::<(SignatureAlgorithm, Option<Seq<char>>, Seq<u8>), DecodeFailure>(
            DecodeFailure::WrongKeyType(declared@, alg.spec_name()),
        ),
{
}

/// A symmetric or RSA key refuses a token whose algorithm belongs to another
/// family, whatever the key declares and before any signature is looked at;
/// the error names the family the key accepts and the token's algorithm.
pub proof fn family_mismatch_checked_first(
    keys: Seq<Key>,
    token: Seq<char>,
    name: Seq<char>,
    kid: Option<Seq<char>>,
    i: int,
    alg: SignatureAlgorithm,
)
    requires
        header_of(token) == Some((name, kid)),
        SignatureAlgorithm::spec_from_name(name) == Some(alg),
        selection(keys, kid) == Ok::<int, DecodeFailure>(i),
    ensures
        keys[i].material@ is Secret && !alg.is_hmac() ==> decoding(keys, token) == Err::<
            (SignatureAlgorithm, Option<Seq<char>>, Seq<u8>),
            DecodeFailure,
        >(DecodeFailure::WrongKeyType("HS256|HS384|HS512"@, alg.spec_name())),
        keys[i].material@ is RsaPublic && !alg.is_rsa() ==> decoding(keys, token) == Err::<
            (SignatureAlgorithm, Option<Seq<char>>, Seq<u8>),
            DecodeFailure,
        >(DecodeFailure::WrongKeyType("RS256|RS384|RS512"@, alg.spec_name())),
{
}

} // verus!
