//! Signature algorithms as they appear in token headers and key entries.
use vstd::prelude::*;

verus! {

/// A JWS signature algorithm, as declared by a token header or a key entry.
#[derive(Debug, Clone, Copy, PartialEq, Eq, Structural)]
pub enum SignatureAlgorithm {
    /// No signature at all; its name is `None`.
    Unsigned,
    HS256,
    HS384,
    HS512,
    RS256,
    RS384,
    RS512,
    ES256,
    ES384,
    ES512,
    PS256,
    PS384,
    PS512,
}

impl SignatureAlgorithm {
    /// The algorithm's name as it is written in diagnostics.
    pub open spec fn spec_name(self) -> Seq<char> {
        match self {
            SignatureAlgorithm::Unsigned => "None"@,
            SignatureAlgorithm::HS256 => "HS256"@,
            SignatureAlgorithm::HS384 => "HS384"@,
            SignatureAlgorithm::HS512 => "HS512"@,
            SignatureAlgorithm::RS256 => "RS256"@,
            SignatureAlgorithm::RS384 => "RS384"@,
            SignatureAlgorithm::RS512 => "RS512"@,
            SignatureAlgorithm::ES256 => "ES256"@,
            SignatureAlgorithm::ES384 => "ES384"@,
            SignatureAlgorithm::ES512 => "ES512"@,
            SignatureAlgorithm::PS256 => "PS256"@,
            SignatureAlgorithm::PS384 => "PS384"@,
            SignatureAlgorithm::PS512 => "PS512"@,
        }
    }

    /// The algorithm whose name is `name`, if any.
    pub open spec fn spec_from_name(name: Seq<char>) -> Option<SignatureAlgorithm> {
        if name == "None"@ {
            Some(SignatureAlgorithm::Unsigned)
        } else if name == "HS256"@ {
            Some(SignatureAlgorithm::HS256)
        } else if name == "HS384"@ {
            Some(SignatureAlgorithm::HS384)
        } else if name == "HS512"@ {
            Some(SignatureAlgorithm::HS512)
        } else if name == "RS256"@ {
            Some(SignatureAlgorithm::RS256)
        } else if name == "RS384"@ {
            Some(SignatureAlgorithm::RS384)
        } else if name == "RS512"@ {
            Some(SignatureAlgorithm::RS512)
        } else if name == "ES256"@ {
            Some(SignatureAlgorithm::ES256)
        } else if name == "ES384"@ {
            Some(SignatureAlgorithm::ES384)
        } else if name == "ES512"@ {
            Some(SignatureAlgorithm::ES512)
        } else if name == "PS256"@ {
            Some(SignatureAlgorithm::PS256)
        } else if name == "PS384"@ {
            Some(SignatureAlgorithm::PS384)
        } else if name == "PS512"@ {
            Some(SignatureAlgorithm::PS512)
        } else {
            Option::None
        }
    }

    /// The HMAC family: the algorithms that take a symmetric secret.
    pub open spec fn is_hmac(self) -> bool {
        self is HS256 || self is HS384 || self is HS512
    }

    /// The RSA PKCS#1 family: the algorithms that take an RSA public key.
    pub open spec fn is_rsa(self) -> bool {
        self is RS256 || self is RS384 || self is RS512
    }

    pub fn is_hmac_family(&self) -> (r: bool)
        ensures
            r == self.is_hmac(),
    {
        matches!(self, SignatureAlgorithm::HS256 | SignatureAlgorithm::HS384 | SignatureAlgorithm::HS512)
    }

    pub fn is_rsa_family(&self) -> (r: bool)
        ensures
            r == self.is_rsa(),
    {
        matches!(self, SignatureAlgorithm::RS256 | SignatureAlgorithm::RS384 | SignatureAlgorithm::RS512)
    }

    pub fn name(&self) -> (r: &'static str)
        ensures
            r@ == self.spec_name(),
    {
        match self {
            SignatureAlgorithm::Unsigned => "None",
            SignatureAlgorithm::HS256 => "HS256",
            SignatureAlgorithm::HS384 => "HS384",
            SignatureAlgorithm::HS512 => "HS512",
            SignatureAlgorithm::RS256 => "RS256",
            SignatureAlgorithm::RS384 => "RS384",
            SignatureAlgorithm::RS512 => "RS512",
            SignatureAlgorithm::ES256 => "ES256",
            SignatureAlgorithm::ES384 => "ES384",
            SignatureAlgorithm::ES512 => "ES512",
            SignatureAlgorithm::PS256 => "PS256",
            SignatureAlgorithm::PS384 => "PS384",
            SignatureAlgorithm::PS512 => "PS512",
        }
    }

    /// Reads an algorithm from its name.
    pub fn from_name(name: &str) -> (r: Option<SignatureAlgorithm>)
        ensures
            r == Self::spec_from_name(name@),
    {
        if text_eq(name, "None") {
            Some(SignatureAlgorithm::Unsigned)
        } else if text_eq(name, "HS256") {
            Some(SignatureAlgorithm::HS256)
        } else if text_eq(name, "HS384") {
            Some(SignatureAlgorithm::HS384)
        } else if text_eq(name, "HS512") {
            Some(SignatureAlgorithm::HS512)
        } else if text_eq(name, "RS256") {
            Some(SignatureAlgorithm::RS256)
        } else if text_eq(name, "RS384") {
            Some(SignatureAlgorithm::RS384)
        } else if text_eq(name, "RS512") {
            Some(SignatureAlgorithm::RS512)
        } else if text_eq(name, "ES256") {
            Some(SignatureAlgorithm::ES256)
        } else if text_eq(name, "ES384") {
            Some(SignatureAlgorithm::ES384)
        } else if text_eq(name, "ES512") {
            Some(SignatureAlgorithm::ES512)
        } else if text_eq(name, "PS256") {
            Some(SignatureAlgorithm::PS256)
        } else if text_eq(name, "PS384") {
            Some(SignatureAlgorithm::PS384)
        } else if text_eq(name, "PS512") {
            Some(SignatureAlgorithm::PS512)
        } else {
            None
        }
    }
}

/// The characters of an optional text.
pub open spec fn opt_text(o: Option<String>) -> Option<Seq<char>> {
    match o {
        Some(s) => Some(s@),
        None => None,
    }
}

/// Compares two strings character by character.
pub fn text_eq(a: &str, b: &str) -> (r: bool)
    ensures
        r == (a@ == b@),
{
    let x = a.to_owned();
    let y = b.to_owned();
    x == y
}

/// What a key entry declares about its own use.
#[derive(Debug, Clone, PartialEq, Eq)]
pub enum KeyAlgorithm {
    /// The key is meant for this signature algorithm only.
    Signature(SignatureAlgorithm),
    /// The key is meant for some other use (key management, content encryption),
    /// named as the provider wrote it.
    Other(String),
}

} // verus!
