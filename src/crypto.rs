//! The secp256k1 primitives that delegation rests on, and the principal (public
//! address) of a public key. Keys and signatures cross this boundary as bytes:
//! secret keys as 32-byte big-endian scalars, public keys as DER
//! `SubjectPublicKeyInfo`, signatures as 64-byte `r || s`.
use vstd::prelude::*;

use k256::ecdsa::signature::{Signer, Verifier};
use k256::pkcs8::{DecodePublicKey, EncodePublicKey};

verus! {

/// The DER public key of a secret key; `None` where the bytes are no secret key.
pub uninterp spec fn secp256k1_public_key_der(secret: Seq<u8>) -> Option<Seq<u8>>;

/// The ECDSA signature (SHA-256, RFC 6979 nonces) of `msg` under `secret`; `None`
/// where the bytes are no secret key or signing fails.
pub uninterp spec fn ecdsa_signature(secret: Seq<u8>, msg: Seq<u8>) -> Option<Seq<u8>>;

/// Whether `sig` is a valid ECDSA signature of `msg` under the DER public key.
pub uninterp spec fn ecdsa_verifies(public_key_der: Seq<u8>, msg: Seq<u8>, sig: Seq<u8>) -> bool;

/// The secret key that a JSON Web Key holds; `None` where it holds none.
pub uninterp spec fn jwk_secret(jwk: Seq<char>) -> Option<Seq<u8>>;

/// The JSON Web Key text of a secret key; `None` where the bytes are no secret key.
pub uninterp spec fn jwk_of_secret(secret: Seq<u8>) -> Option<Seq<char>>;

/// The secret key that a PEM `EC PRIVATE KEY` document holds; `None` where it holds none.
pub uninterp spec fn sec1_pem_secret(pem: Seq<char>) -> Option<Seq<u8>>;

/// The textual self-authenticating principal of a DER public key.
pub uninterp spec fn self_authenticating_principal(public_key_der: Seq<u8>) -> Seq<char>;

/// Relies on `k256::SecretKey::random` with the operating system's generator: a fresh
/// non-zero scalar, serialized by `to_bytes` as 32 bytes, which reads back as a key.
#[verifier::external_body]
pub fn random_secret_key() -> (r: Vec<u8>)
    ensures
        r@.len() == 32,
        secp256k1_public_key_der(r@) is Some,
{
    k256::SecretKey::random(&mut k256::elliptic_curve::rand_core::OsRng).to_bytes().to_vec()
}

/// Relies on `k256::PublicKey::to_public_key_der` of the public key of
/// `SecretKey::from_slice(secret)`.
#[verifier::external_body]
pub fn public_key_der(secret: &Vec<u8>) -> (r: Option<Vec<u8>>)
    ensures
        r matches Some(k) ==> secp256k1_public_key_der(secret@) == Some(k@),
        r is None <==> secp256k1_public_key_der(secret@) is None,
{
    k256::SecretKey::from_slice(secret)
        .ok()
        .and_then(|k| k.public_key().to_public_key_der().ok())
        .map(|d| d.as_bytes().to_vec())
}

/// Relies on `k256::ecdsa::SigningKey::try_sign` (deterministic, RFC 6979, low-S) with the
/// key `SigningKey::from_slice(secret)`; the signature serialized by `to_vec`. A signature
/// it makes verifies under the same key's public key.
#[verifier::external_body]
pub fn sign_message(secret: &Vec<u8>, msg: &Vec<u8>) -> (r: Option<Vec<u8>>)
    ensures
        r matches Some(s) ==> ecdsa_signature(secret@, msg@) == Some(s@),
        r matches Some(s) ==> (secp256k1_public_key_der(secret@) matches Some(pk)
            ==> ecdsa_verifies(pk, msg@, s@)),
        r is None <==> ecdsa_signature(secret@, msg@) is None,
{
    k256::ecdsa::SigningKey::from_slice(secret)
        .ok()
        .and_then(|k| Signer::<k256::ecdsa::Signature>::try_sign(&k, msg).ok())
        .map(|s| s.to_vec())
}

/// Relies on `k256::ecdsa::VerifyingKey::verify`, with the key read by
/// `from_public_key_der` and the signature by `Signature::from_slice`; bytes that read
/// as no key or no signature verify nothing.
#[verifier::external_body]
pub fn verify_signature(public_key_der: &Vec<u8>, msg: &Vec<u8>, sig: &Vec<u8>) -> (r: bool)
    ensures
        r == ecdsa_verifies(public_key_der@, msg@, sig@),
{
    match (
        k256::ecdsa::VerifyingKey::from_public_key_der(public_key_der),
        k256::ecdsa::Signature::from_slice(sig),
    ) {
        (Ok(key), Ok(sig)) => key.verify(msg, &sig).is_ok(),
        _ => false,
    }
}

/// Relies on `k256::SecretKey::from_jwk_str`, the key serialized by `to_bytes`.
#[verifier::external_body]
pub fn secret_from_jwk(jwk: &str) -> (r: Option<Vec<u8>>)
    ensures
        r matches Some(k) ==> jwk_secret(jwk@) == Some(k@),
        r is None <==> jwk_secret(jwk@) is None,
{
    k256::SecretKey::from_jwk_str(jwk).ok().map(|k| k.to_bytes().to_vec())
}

/// Relies on `k256::SecretKey::to_jwk_string` of `SecretKey::from_slice(secret)`; a
/// 32-byte key reads back unchanged with `from_jwk_str`.
#[verifier::external_body]
pub fn secret_to_jwk(secret: &Vec<u8>) -> (r: Option<String>)
    ensures
        r matches Some(j) ==> jwk_of_secret(secret@) == Some(j@),
        r matches Some(j) ==> (secret@.len() == 32 ==> jwk_secret(j@) == Some(secret@)),
        r is None <==> jwk_of_secret(secret@) is None,
{
    k256::SecretKey::from_slice(secret).ok().map(|k| k.to_jwk_string().to_string())
}

/// Relies on `k256::SecretKey::from_sec1_pem`, the key serialized by `to_bytes`.
#[verifier::external_body]
pub fn secret_from_sec1_pem(pem: &str) -> (r: Option<Vec<u8>>)
    ensures
        r matches Some(k) ==> sec1_pem_secret(pem@) == Some(k@),
        r is None <==> sec1_pem_secret(pem@) is None,
{
    k256::SecretKey::from_sec1_pem(pem).ok().map(|k| k.to_bytes().to_vec())
}

/// Relies on `candid::Principal::self_authenticating` and `Principal::to_text`.
#[verifier::external_body]
pub fn principal_text(public_key_der: &Vec<u8>) -> (r: String)
    ensures
        r@ == self_authenticating_principal(public_key_der@),
{
    candid::Principal::self_authenticating(public_key_der).to_text()
}

} // verus!
