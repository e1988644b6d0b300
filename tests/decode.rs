use biscuit::jwa::SignatureAlgorithm as Jwa;
use biscuit::jws::{Compact, Header as JwsHeader, RegisteredHeader, Secret};
use biscuit::Empty;
use openid::{
    decode_compact, Client, Decode, Error, Header, IdToken, Jose, Key, KeyAlgorithm, KeyMaterial,
    KeySet, SignatureAlgorithm,
};

const PAYLOAD: &str = r#"{"iss":"https://issuer","sub":"u1","aud":"client1","exp":4102444800,"iat":1600000000,"nonce":"n1"}"#;

fn sign(alg: Jwa, kid: Option<&str>, secret: &[u8]) -> String {
    let token: Compact<Vec<u8>, Empty> =
        Compact::new_decoded(header(alg, kid), PAYLOAD.as_bytes().to_vec());
    let encoded = token.encode(&Secret::Bytes(secret.to_vec())).unwrap();
    encoded.encoded().unwrap().encode()
}

fn header(alg: Jwa, kid: Option<&str>) -> JwsHeader<Empty> {
    JwsHeader {
        registered: RegisteredHeader {
            algorithm: alg,
            key_id: kid.map(|k| k.to_string()),
            ..Default::default()
        },
        private: Empty {},
    }
}

/// A token whose signature part is garbage.
fn forged(alg: Jwa, kid: Option<&str>) -> String {
    let mut compact = biscuit::Compact::with_capacity(3);
    compact.push(&header(alg, kid)).unwrap();
    compact.push(&PAYLOAD.as_bytes().to_vec()).unwrap();
    compact.push(&vec![0u8, 1, 2, 3]).unwrap();
    compact.encode()
}

fn hmac_key(id: &str, alg: Option<SignatureAlgorithm>, secret: &[u8]) -> Key {
    Key {
        key_id: Some(id.to_string()),
        algorithm: alg.map(KeyAlgorithm::Signature),
        material: KeyMaterial::Symmetric(secret.to_vec()),
    }
}

fn k1_set() -> KeySet {
    KeySet { keys: vec![hmac_key("k1", Some(SignatureAlgorithm::HS256), b"s")] }
}

fn wrong_key(expected: &str, actual: &str) -> Error {
    Error::Jose(Jose::WrongKeyType { expected: expected.to_string(), actual: actual.to_string() })
}

#[test]
fn single_key_with_key_id_decodes() {
    let token = sign(Jwa::HS256, Some("k1"), b"s");
    let r = decode_compact(&k1_set(), &token).unwrap();
    assert_eq!(
        r,
        IdToken::Decoded {
            header: Header { algorithm: SignatureAlgorithm::HS256, key_id: Some("k1".to_string()) },
            payload: PAYLOAD.as_bytes().to_vec(),
        }
    );
}

#[test]
fn single_key_without_key_id_decodes() {
    let token = sign(Jwa::HS256, None, b"s");
    let r = decode_compact(&k1_set(), &token).unwrap();
    assert_eq!(
        r,
        IdToken::Decoded {
            header: Header { algorithm: SignatureAlgorithm::HS256, key_id: None },
            payload: PAYLOAD.as_bytes().to_vec(),
        }
    );
}

#[test]
fn single_key_with_other_key_id_still_used() {
    let token = sign(Jwa::HS256, Some("elsewhere"), b"s");
    assert!(decode_compact(&k1_set(), &token).is_ok());
}

#[test]
fn several_keys_without_key_id_fail() {
    let set = KeySet { keys: vec![hmac_key("k1", None, b"s"), hmac_key("k2", None, b"t")] };
    let token = sign(Jwa::HS256, None, b"s");
    assert_eq!(decode_compact(&set, &token), Err(Error::Decode(Decode::MissingKid)));
}

#[test]
fn several_keys_pick_by_key_id() {
    let set = KeySet { keys: vec![hmac_key("k1", None, b"s"), hmac_key("k2", None, b"t")] };
    let token = sign(Jwa::HS256, Some("k2"), b"t");
    assert!(decode_compact(&set, &token).is_ok());
    let token = sign(Jwa::HS256, Some("k1"), b"t");
    assert_eq!(decode_compact(&set, &token), Err(Error::Jose(Jose::Rejected)));
}

#[test]
fn unknown_key_id_fails() {
    let set = KeySet { keys: vec![hmac_key("k1", None, b"s"), hmac_key("k2", None, b"t")] };
    let token = sign(Jwa::HS256, Some("k3"), b"s");
    assert_eq!(
        decode_compact(&set, &token),
        Err(Error::Decode(Decode::MissingKey("k3".to_string())))
    );
}

#[test]
fn empty_key_set_fails() {
    let token = sign(Jwa::HS256, Some("k1"), b"s");
    assert_eq!(
        decode_compact(&KeySet { keys: vec![] }, &token),
        Err(Error::Decode(Decode::EmptySet))
    );
}

#[test]
fn declared_algorithm_checked_before_signature() {
    let token = forged(Jwa::HS512, Some("k1"));
    assert_eq!(decode_compact(&k1_set(), &token), Err(wrong_key("HS256", "HS512")));
}

#[test]
fn header_declaring_rs256_against_hmac_key_set() {
    let token = forged(Jwa::RS256, Some("k1"));
    assert_eq!(decode_compact(&k1_set(), &token), Err(wrong_key("HS256|HS384|HS512", "RS256")));
    let undeclared = KeySet { keys: vec![hmac_key("k1", None, b"s")] };
    assert_eq!(decode_compact(&undeclared, &token), Err(wrong_key("HS256|HS384|HS512", "RS256")));
}

#[test]
fn rsa_key_declaring_other_rsa_algorithm_fails() {
    let set = KeySet {
        keys: vec![Key {
            key_id: None,
            algorithm: Some(KeyAlgorithm::Signature(SignatureAlgorithm::RS256)),
            material: KeyMaterial::Rsa { modulus: vec![1, 2, 3], exponent: vec![1, 0, 1] },
        }],
    };
    let token = forged(Jwa::RS512, None);
    assert_eq!(decode_compact(&set, &token), Err(wrong_key("RS256", "RS512")));
}

#[test]
fn elliptic_curve_key_declaring_other_algorithm_fails() {
    let set = KeySet {
        keys: vec![Key {
            key_id: None,
            algorithm: Some(KeyAlgorithm::Signature(SignatureAlgorithm::ES256)),
            material: KeyMaterial::EllipticCurve,
        }],
    };
    assert_eq!(decode_compact(&set, &forged(Jwa::HS256, None)), Err(wrong_key("ES256", "HS256")));
    assert_eq!(
        decode_compact(&set, &forged(Jwa::ES256, None)),
        Err(Error::Decode(Decode::UnsupportedKeyType))
    );
}

#[test]
fn rsa_key_refuses_hmac_token() {
    let set = KeySet {
        keys: vec![Key {
            key_id: None,
            algorithm: None,
            material: KeyMaterial::Rsa { modulus: vec![1, 2, 3], exponent: vec![1, 0, 1] },
        }],
    };
    let token = sign(Jwa::HS256, None, b"s");
    assert_eq!(decode_compact(&set, &token), Err(wrong_key("RS256|RS384|RS512", "HS256")));
}

#[test]
fn rsa_key_with_bad_signature_is_rejected() {
    let set = KeySet {
        keys: vec![Key {
            key_id: None,
            algorithm: None,
            material: KeyMaterial::Rsa { modulus: vec![1, 2, 3], exponent: vec![1, 0, 1] },
        }],
    };
    let token = forged(Jwa::RS256, None);
    assert_eq!(decode_compact(&set, &token), Err(Error::Jose(Jose::Rejected)));
}

#[test]
fn non_signature_key_use_fails() {
    let set = KeySet {
        keys: vec![Key {
            key_id: None,
            algorithm: Some(KeyAlgorithm::Other("RSA1_5".to_string())),
            material: KeyMaterial::Symmetric(b"s".to_vec()),
        }],
    };
    let token = sign(Jwa::HS256, None, b"s");
    assert_eq!(decode_compact(&set, &token), Err(wrong_key("RSA1_5", "HS256")));
    let forged_token = forged(Jwa::HS512, None);
    assert_eq!(decode_compact(&set, &forged_token), Err(wrong_key("RSA1_5", "HS512")));
}

#[test]
fn elliptic_curve_key_is_unsupported() {
    let set = KeySet {
        keys: vec![Key { key_id: None, algorithm: None, material: KeyMaterial::EllipticCurve }],
    };
    let token = sign(Jwa::HS256, None, b"s");
    assert_eq!(decode_compact(&set, &token), Err(Error::Decode(Decode::UnsupportedKeyType)));
}

#[test]
fn bad_signature_is_rejected() {
    let token = sign(Jwa::HS256, Some("k1"), b"not the secret");
    assert_eq!(decode_compact(&k1_set(), &token), Err(Error::Jose(Jose::Rejected)));
}

#[test]
fn malformed_token_is_rejected() {
    assert_eq!(decode_compact(&k1_set(), "not a token"), Err(Error::Jose(Jose::Rejected)));
}

fn client(jwks: Option<KeySet>) -> Client {
    Client::new(
        "client1".to_string(),
        "secret".to_string(),
        None,
        "https://issuer".to_string(),
        jwks,
    )
}

#[test]
fn decode_token_moves_to_decoded_once() {
    let c = client(Some(k1_set()));
    let mut token = IdToken::Encoded(sign(Jwa::HS256, Some("k1"), b"s"));
    assert_eq!(token.payload(), Err(Error::Jose(Jose::NotDecoded)));
    assert_eq!(c.decode_token(&mut token), Ok(()));
    assert_eq!(token.payload().unwrap(), &PAYLOAD.as_bytes().to_vec());
    assert_eq!(token.header().unwrap().algorithm, SignatureAlgorithm::HS256);
    let before = token.clone();
    assert_eq!(c.decode_token(&mut token), Ok(()));
    assert_eq!(token, before);
}

#[test]
fn decode_token_failure_leaves_token() {
    let c = client(Some(k1_set()));
    let raw = sign(Jwa::HS256, Some("k1"), b"wrong");
    let mut token = IdToken::Encoded(raw.clone());
    assert_eq!(c.decode_token(&mut token), Err(Error::Jose(Jose::Rejected)));
    assert_eq!(token, IdToken::Encoded(raw));
}

#[test]
fn decode_token_without_keys_leaves_token_encoded() {
    let c = client(None);
    let raw = sign(Jwa::HS256, Some("k1"), b"s");
    let mut token = IdToken::Encoded(raw.clone());
    assert_eq!(c.decode_token(&mut token), Ok(()));
    assert_eq!(token, IdToken::Encoded(raw));
    assert_eq!(token.payload(), Err(Error::Jose(Jose::NotDecoded)));
}

#[test]
fn algorithm_names_round_trip() {
    for a in [
        SignatureAlgorithm::Unsigned,
        SignatureAlgorithm::HS256,
        SignatureAlgorithm::RS512,
        SignatureAlgorithm::ES384,
        SignatureAlgorithm::PS256,
    ] {
        assert_eq!(SignatureAlgorithm::from_name(a.name()), Some(a));
    }
    assert_eq!(SignatureAlgorithm::HS384.name(), "HS384");
    assert_eq!(SignatureAlgorithm::from_name("none"), None);
}
