//! A provider's published verification keys, and the choice of the key that
//! verifies a given token.
use vstd::prelude::*;
use crate::algorithm::{opt_text, text_eq, KeyAlgorithm, SignatureAlgorithm};
use crate::error::{Decode, DecodeFailure, Error, Jose};

verus! {

/// The material of a verification key.
#[derive(Debug, Clone, PartialEq, Eq)]
pub enum KeyMaterial {
    /// A symmetric secret, for the HMAC family.
    Symmetric(Vec<u8>),
    /// An RSA public key: modulus and exponent as big-endian bytes.
    Rsa { modulus: Vec<u8>, exponent: Vec<u8> },
    /// Elliptic-curve parameters: accepted as data, never usable for verification.
    EllipticCurve,
}

/// The bytes of a key, as a mathematical value.
pub enum KeyBytes {
    Secret(Seq<u8>),
    RsaPublic(Seq<u8>, Seq<u8>),
    EllipticCurve,
}

impl View for KeyMaterial {
    type V = KeyBytes;

    open spec fn view(&self) -> KeyBytes {
        match self {
            KeyMaterial::Symmetric(s) => KeyBytes::Secret(s@),
            KeyMaterial::Rsa { modulus, exponent } => KeyBytes::RsaPublic(modulus@, exponent@),
            KeyMaterial::EllipticCurve => KeyBytes::EllipticCurve,
        }
    }
}

/// One entry of a key set.
#[derive(Debug, Clone)]
pub struct Key {
    pub key_id: Option<String>,
    pub algorithm: Option<KeyAlgorithm>,
    pub material: KeyMaterial,
}

/// The keys a provider publishes, in the order it lists them.
#[derive(Debug, Clone)]
pub struct KeySet {
    pub keys: Vec<Key>,
}

/// The key carries the identifier `kid`.
pub open spec fn has_id(key: Key, kid: Seq<char>) -> bool {
    key.key_id matches Some(id) && id@ == kid
}

/// The position of the first key that carries the identifier `kid`.
pub open spec fn key_index(keys: Seq<Key>, kid: Seq<char>) -> Option<int>
    decreases keys.len(),
{
    if keys.len() == 0 {
        None
    } else {
        match key_index(keys.drop_last(), kid) {
            Some(i) => Some(i),
            None => if has_id(keys.last(), kid) {
                Some(keys.len() - 1)
            } else {
                None
            },
        }
    }
}

/// Which key verifies a token whose header names `kid`: a lone key is used
/// whatever the header says; among several, the header must name one.
pub open spec fn selection(keys: Seq<Key>, kid: Option<Seq<char>>) -> Result<int, DecodeFailure> {
    if keys.len() == 0 {
        Err(DecodeFailure::EmptySet)
    } else if keys.len() == 1 {
        Ok(0)
    } else {
        match kid {
            None => Err(DecodeFailure::MissingKid),
            Some(k) => match key_index(keys, k) {
                Some(i) => Ok(i),
                None => Err(DecodeFailure::MissingKey(k)),
            },
        }
    }
}

/// What a key's own declared algorithm says of a token that declares `alg`.
pub open spec fn declared_algorithm_check(key: Key, alg: SignatureAlgorithm) -> Option<DecodeFailure> {
    match key.algorithm {
        None => None,
        Some(KeyAlgorithm::Signature(a)) => if a == alg {
            None
        } else {
            Some(DecodeFailure::WrongKeyType(a.spec_name(), alg.spec_name()))
        },
        Some(KeyAlgorithm::Other(name)) => Some(
            DecodeFailure::WrongKeyType(name@, alg.spec_name()),
        ),
    }
}

/// Whether the key's material suits the family of `alg`; an elliptic-curve
/// key belongs to no family that verifies, and is refused separately.
pub open spec fn family_check(material: KeyBytes, alg: SignatureAlgorithm) -> Option<DecodeFailure> {
    match material {
        KeyBytes::Secret(_) => if alg.is_hmac() {
            None
        } else {
            Some(DecodeFailure::WrongKeyType("HS256|HS384|HS512"@, alg.spec_name()))
        },
        KeyBytes::RsaPublic(_, _) => if alg.is_rsa() {
            None
        } else {
            Some(DecodeFailure::WrongKeyType("RS256|RS384|RS512"@, alg.spec_name()))
        },
        KeyBytes::EllipticCurve => None,
    }
}

proof fn lemma_key_index_prefix(keys: Seq<Key>, kid: Seq<char>, i: int)
    requires
        0 <= i < keys.len(),
        key_index(keys.subrange(0, i), kid) is None,
    ensures
        key_index(keys.subrange(0, i + 1), kid) == (if has_id(keys[i], kid) {
            Some(i)
        } else {
            None::<int>
        }),
{
    assert(keys.subrange(0, i + 1).drop_last() =~= keys.subrange(0, i));
}

fn wrong_key(expected: &str, actual: &str) -> (r: Error)
    ensures
        r.is_failure(DecodeFailure::WrongKeyType(expected@, actual@)),
{
    Error::Jose(Jose::WrongKeyType { expected: expected.to_owned(), actual: actual.to_owned() })
}

impl KeySet {
    /// The first key that carries the identifier `kid`.
    pub fn find(&self, kid: &str) -> (r: Option<&Key>)
        ensures
            match key_index(self.keys@, kid@) {
                Some(i) => r == Some(&self.keys@[i]),
                None => r is None,
            },
    {
        let mut i: usize = 0;
        while i < self.keys.len()
            invariant
                0 <= i <= self.keys@.len(),
                key_index(self.keys@.subrange(0, i as int), kid@) is None,
            decreases self.keys@.len() - i,
        {
            proof {
                lemma_key_index_prefix(self.keys@, kid@, i as int);
            }
            let key = &self.keys[i];
            if let Some(id) = &key.key_id {
                if text_eq(id.as_str(), kid) {
                    assert(self.keys@.subrange(0, self.keys@.len() as int) =~= self.keys@);
                    proof {
                        lemma_key_index_extend(self.keys@, kid@, i as int + 1);
                    }
                    return Some(key);
                }
            }
            i = i + 1;
        }
        assert(self.keys@.subrange(0, self.keys@.len() as int) =~= self.keys@);
        None
    }

    /// Picks the key that verifies a token whose header names `kid`.
    pub fn select(&self, kid: &Option<String>) -> (r: Result<&Key, Error>)
        ensures
            match selection(self.keys@, opt_text(*kid)) {
                Ok(i) => r == Ok::<&Key, Error>(&self.keys@[i]),
                Err(f) => r matches Err(e) && e.is_failure(f),
            },
    {
        if self.keys.len() > 1 {
            match kid {
                None => Err(Error::Decode(Decode::MissingKid)),
                Some(k) => match self.find(k.as_str()) {
                    Some(key) => Ok(key),
                    None => Err(Error::Decode(Decode::MissingKey(k.clone()))),
                },
            }
        } else if self.keys.len() == 1 {
            Ok(&self.keys[0])
        } else {
            Err(Error::Decode(Decode::EmptySet))
        }
    }
}

/// A key found once stays found as the prefix grows.
proof fn lemma_key_index_extend(keys: Seq<Key>, kid: Seq<char>, n: int)
    requires
        0 < n <= keys.len(),
        key_index(keys.subrange(0, n), kid) is Some,
    ensures
        key_index(keys, kid) == key_index(keys.subrange(0, n), kid),
    decreases keys.len() - n,
{
    if n < keys.len() {
        assert(keys.subrange(0, n + 1).drop_last() =~= keys.subrange(0, n));
        lemma_key_index_extend(keys, kid, n + 1);
    } else {
        assert(keys.subrange(0, n) =~= keys);
    }
}

impl Key {
    /// Checks the key's own declared algorithm against the one a token declares.
    pub fn check_declared_algorithm(&self, alg: SignatureAlgorithm) -> (r: Result<(), Error>)
        ensures
            match declared_algorithm_check(*self, alg) {
                None => r is Ok,
                Some(f) => r matches Err(e) && e.is_failure(f),
            },
    {
        match &self.algorithm {
            None => Ok(()),
            Some(KeyAlgorithm::Signature(a)) => {
                if *a == alg {
                    Ok(())
                } else {
                    Err(wrong_key(a.name(), alg.name()))
                }
            },
            Some(KeyAlgorithm::Other(name)) => Err(wrong_key(name.as_str(), alg.name())),
        }
    }

    /// Checks that the key's material suits the family of `alg`.
    pub fn check_family(&self, alg: SignatureAlgorithm) -> (r: Result<(), Error>)
        ensures
            match family_check(self.material@, alg) {
                None => r is Ok,
                Some(f) => r matches Err(e) && e.is_failure(f),
            },
    {
        match &self.material {
            KeyMaterial::Symmetric(_) => {
                if alg.is_hmac_family() {
                    Ok(())
                } else {
                    Err(wrong_key("HS256|HS384|HS512", alg.name()))
                }
            },
            KeyMaterial::Rsa { .. } => {
                if alg.is_rsa_family() {
                    Ok(())
                } else {
                    Err(wrong_key("RS256|RS384|RS512", alg.name()))
                }
            },
            KeyMaterial::EllipticCurve => Ok(()),
        }
    }
}

} // verus!
