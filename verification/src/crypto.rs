//! The signature engine: key generation, signing and verification with
//! Ed25519.
//!
//! A secret key is the 32-byte seed of the scheme, a public key the 32 bytes
//! derived from it, a signature 64 bytes. Keys travel in base-58, signatures
//! in base-64, and a message is signed as the bytes of its UTF-8 text with no
//! hashing of the library's own. The scheme itself is that of the
//! `ed25519-dalek` crate; what it computes is named here, not restated.

use vstd::prelude::*;
use vstd::pervasive::unreached;
use vstd::utf8::encode_utf8;
use ed25519_dalek::{Keypair, PublicKey, SecretKey, Signature, Signer, Verifier};
use crate::encoding::{
    base58_decode, base58_encode, base64_decode, base64_encode, format_key, format_signature,
    parse_key, parse_key_spec, parse_signature, parse_signature_spec,
};
use crate::error::{KeyKind, RequestError};
use crate::types::{
    KeypairResponse, KeypairView, SignMessageResponse, SignatureView, VerificationView,
    VerifyMessageResponse,
};

verus! {

/// The public key that belongs to a secret key.
pub uninterp spec fn ed25519_public_key(secret: Seq<u8>) -> Seq<u8>;

/// The signature of a message under a secret key. Signing draws no
/// randomness: the same key and message give the same signature.
pub uninterp spec fn ed25519_signature(secret: Seq<u8>, message: Seq<u8>) -> Seq<u8>;

/// Whether 32 bytes are a public key of the scheme: the compressed form of a
/// point of the curve.
pub uninterp spec fn ed25519_public_key_valid(public: Seq<u8>) -> bool;

/// Whether the signature equation holds for a public key, a message and a
/// signature.
pub uninterp spec fn ed25519_verifies(
    public: Seq<u8>,
    message: Seq<u8>,
    signature: Seq<u8>,
) -> bool;

/// A signature is well formed when it has 64 bytes and the three highest bits
/// of the last one are clear. Nothing else is asked of it before the
/// signature equation is tried.
pub open spec fn signature_well_formed(signature: Seq<u8>) -> bool {
    signature.len() == 64 && signature[63] < 0x20
}

#[verifier::external_type_specification]
#[verifier::external_body]
pub struct ExSignatureError(ed25519_dalek::ed25519::signature::Error);

/// `Keypair::generate` on `rand::rngs::OsRng`. Trusted: the public half is the
/// public key of the secret half, and a valid key. The secret half is random:
/// nothing is said of it. The call panics where the operating system has no
/// entropy to give.
#[verifier::external_body]
fn generate_key_material() -> (pair: ([u8; 32], [u8; 32]))
    ensures
        pair.1@ == ed25519_public_key(pair.0@),
        ed25519_public_key_valid(pair.1@),
{
    let pair = Keypair::generate(&mut rand::rngs::OsRng {});
    (pair.secret.to_bytes(), pair.public.to_bytes())
}

/// `SecretKey::from_bytes`, `PublicKey::from` and `Signer::sign` of a
/// `Keypair`. Trusted: the secret key is refused exactly when it has not 32
/// bytes; otherwise the results are the public key and the signature of the
/// scheme, the public key is valid, the signature is well formed, and it
/// verifies under that public key for that message.
#[verifier::external_body]
fn sign_with_secret(secret: &[u8], message: &[u8]) -> (r: Result<
    ([u8; 32], [u8; 64]),
    ed25519_dalek::SignatureError,
>)
    ensures
        r is Ok <==> secret@.len() == 32,
        r is Ok ==> r->Ok_0.0@ == ed25519_public_key(secret@),
        r is Ok ==> r->Ok_0.1@ == ed25519_signature(secret@, message@),
        r is Ok ==> ed25519_public_key_valid(r->Ok_0.0@),
        r is Ok ==> signature_well_formed(r->Ok_0.1@),
        r is Ok ==> ed25519_verifies(r->Ok_0.0@, message@, r->Ok_0.1@),
{
    let secret = SecretKey::from_bytes(secret)?;
    let public = PublicKey::from(&secret);
    let signature = Keypair { secret, public }.sign(message);
    Ok((public.to_bytes(), signature.to_bytes()))
}

/// `PublicKey::from_bytes`. Trusted: 32 bytes are accepted exactly when they
/// are a valid public key.
#[verifier::external_body]
fn check_public_key(public: &[u8; 32]) -> (r: Result<(), ed25519_dalek::SignatureError>)
    ensures
        r is Ok <==> ed25519_public_key_valid(public@),
{
    PublicKey::from_bytes(public).map(|_| ())
}

/// `Signature::from_bytes`. Trusted: 64 bytes are accepted exactly when the
/// three highest bits of the last one are clear.
#[verifier::external_body]
fn check_signature(signature: &[u8; 64]) -> (r: Result<(), ed25519_dalek::SignatureError>)
    ensures
        r is Ok <==> signature_well_formed(signature@),
{
    Signature::from_bytes(signature).map(|_| ())
}

/// `Verifier::verify` of a `PublicKey`. Trusted: the result says whether the
/// signature equation holds.
#[verifier::external_body]
fn verify_with_public(public: &[u8; 32], message: &[u8], signature: &[u8; 64]) -> (valid: bool)
    requires
        ed25519_public_key_valid(public@),
        signature_well_formed(signature@),
    ensures
        valid == ed25519_verifies(public@, message@, signature@),
{
    match (PublicKey::from_bytes(public), Signature::from_bytes(signature)) {
        (Ok(key), Ok(signature)) => key.verify(message, &signature).is_ok(),
        _ => false,
    }
}

/// What `verify_message` returns. The public key is read and checked first,
/// then the signature; only malformed input is an error, and a well-formed
/// signature that does not match gives `valid: false`.
pub open spec fn verify_message_spec(
    message: Seq<char>,
    signature: Seq<char>,
    pubkey: Seq<char>,
) -> Result<VerificationView, RequestError> {
    match parse_key_spec(pubkey, KeyKind::Public) {
        Err(e) => Err(e),
        Ok(key) => if !ed25519_public_key_valid(key) {
            Err(RequestError::InvalidKeyFormat(KeyKind::Public))
        } else {
            match parse_signature_spec(signature) {
                Err(e) => Err(e),
                Ok(bytes) => if !signature_well_formed(bytes) {
                    Err(RequestError::InvalidSignatureFormat)
                } else {
                    Ok(
                        VerificationView {
                            valid: ed25519_verifies(key, encode_utf8(message), bytes),
                            message,
                            pubkey,
                        },
                    )
                },
            }
        },
    }
}

/// What `sign_message` returns. Every 32-byte secret key is accepted.
pub open spec fn sign_message_spec(message: Seq<char>, secret: Seq<char>) -> Result<
    SignatureView,
    RequestError,
> {
    match parse_key_spec(secret, KeyKind::Secret) {
        Err(e) => Err(e),
        Ok(key) => Ok(
            SignatureView {
                signature: base64_encode(ed25519_signature(key, encode_utf8(message))),
                public_key: base58_encode(ed25519_public_key(key)),
                message,
            },
        ),
    }
}

/// A key pair as `generate_keypair` hands it out: the secret half reads as a
/// 32-byte key, and the public half is the text of the public key that belongs
/// to it.
pub open spec fn keypair_consistent(pair: KeypairView) -> bool {
    match parse_key_spec(pair.secret, KeyKind::Secret) {
        Err(_) => false,
        Ok(secret) => {
            &&& pair.pubkey == base58_encode(ed25519_public_key(secret))
            &&& parse_key_spec(pair.pubkey, KeyKind::Public) == Ok::<Seq<u8>, RequestError>(
                ed25519_public_key(secret),
            )
            &&& ed25519_public_key_valid(ed25519_public_key(secret))
        },
    }
}

/// The outcome of `verify_message` with the response taken by its view.
pub open spec fn verification_result(r: Result<VerifyMessageResponse, RequestError>) -> Result<
    VerificationView,
    RequestError,
> {
    match r {
        Ok(response) => Ok(response@),
        Err(e) => Err(e),
    }
}

/// The outcome of `sign_message` with the response taken by its view.
pub open spec fn signature_result(r: Result<SignMessageResponse, RequestError>) -> Result<
    SignatureView,
    RequestError,
> {
    match r {
        Ok(response) => Ok(response@),
        Err(e) => Err(e),
    }
}

/// What `accept_public_key` returns.
pub open spec fn accept_public_key_spec(public: Seq<u8>) -> Result<(), RequestError> {
    if ed25519_public_key_valid(public) {
        Ok(())
    } else {
        Err(RequestError::InvalidKeyFormat(KeyKind::Public))
    }
}

/// What `accept_signature` returns.
pub open spec fn accept_signature_spec(signature: Seq<u8>) -> Result<(), RequestError> {
    if signature_well_formed(signature) {
        Ok(())
    } else {
        Err(RequestError::InvalidSignatureFormat)
    }
}

/// Accepts 32 bytes as a public key where they are one of the scheme.
pub fn accept_public_key(public: &[u8; 32]) -> (r: Result<(), RequestError>)
    ensures
        r == accept_public_key_spec(public@),
{
    match check_public_key(public) {
        Ok(_) => Ok(()),
        Err(_) => Err(RequestError::InvalidKeyFormat(KeyKind::Public)),
    }
}

/// Accepts 64 bytes as a signature where they are well formed: where the
/// last byte is below 0x20.
pub fn accept_signature(signature: &[u8; 64]) -> (r: Result<(), RequestError>)
    ensures
        r == accept_signature_spec(signature@),
        r is Ok <==> signature@[63] < 0x20,
{
    match check_signature(signature) {
        Ok(_) => Ok(()),
        Err(_) => Err(RequestError::InvalidSignatureFormat),
    }
}

/// Signs the bytes of a message with a secret key, and gives the public key
/// of the secret key with the signature. The signature is well formed, the
/// public key valid, and the signature verifies under it.
pub fn sign_detached(secret: &[u8; 32], message: &[u8]) -> (signed: ([u8; 32], [u8; 64]))
    ensures
        signed.0@ == ed25519_public_key(secret@),
        signed.1@ == ed25519_signature(secret@, message@),
        accept_public_key_spec(signed.0@) is Ok,
        accept_signature_spec(signed.1@) is Ok,
        ed25519_verifies(signed.0@, message@, signed.1@),
{
    match sign_with_secret(secret.as_slice(), message) {
        Ok(signed) => signed,
        Err(_) => unreached(),
    }
}

/// Writes a signature, the public key it verifies under and the message
/// signed in their boundary form. Both texts read back as the bytes given.
pub fn signature_response(message: &str, public: &[u8; 32], signature: &[u8; 64]) -> (response:
    SignMessageResponse)
    ensures
        response@ == (SignatureView {
            signature: base64_encode(signature@),
            public_key: base58_encode(public@),
            message: message@,
        }),
        parse_signature_spec(response.signature@) == Ok::<Seq<u8>, RequestError>(signature@),
        parse_key_spec(response.public_key@, KeyKind::Public) == Ok::<Seq<u8>, RequestError>(
            public@,
        ),
{
    SignMessageResponse {
        signature: format_signature(signature),
        public_key: format_key(public),
        message: message.to_owned(),
    }
}

/// Writes the two keys of a pair in base-58. Both texts read back as the
/// bytes given.
pub fn keypair_response(secret: &[u8; 32], public: &[u8; 32]) -> (response: KeypairResponse)
    ensures
        response@ == (KeypairView {
            pubkey: base58_encode(public@),
            secret: base58_encode(secret@),
        }),
        parse_key_spec(response.secret@, KeyKind::Secret) == Ok::<Seq<u8>, RequestError>(secret@),
        parse_key_spec(response.pubkey@, KeyKind::Public) == Ok::<Seq<u8>, RequestError>(public@),
{
    KeypairResponse { pubkey: format_key(public), secret: format_key(secret) }
}

/// Checks a base-64 signature on a message against a base-58 public key.
pub fn verify_message(message: &str, signature_b64: &str, pubkey_b58: &str) -> (r: Result<
    VerifyMessageResponse,
    RequestError,
>)
    ensures
        verification_result(r) == verify_message_spec(message@, signature_b64@, pubkey_b58@),
{
    let public = match parse_key(pubkey_b58, KeyKind::Public) {
        Ok(key) => key,
        Err(e) => { return Err(e); },
    };
    if let Err(e) = accept_public_key(&public) {
        return Err(e);
    }
    let signature = match parse_signature(signature_b64) {
        Ok(bytes) => bytes,
        Err(e) => { return Err(e); },
    };
    if let Err(e) = accept_signature(&signature) {
        return Err(e);
    }
    let valid = verify_with_public(&public, message.as_bytes(), &signature);
    Ok(VerifyMessageResponse { valid, message: message.to_owned(), pubkey: pubkey_b58.to_owned() })
}

/// Signs a message with a base-58 secret key. The response carries the
/// signature in base-64, the public key of the secret key in base-58, and the
/// message. Verifying that signature on the same message under that public
/// key succeeds with `valid: true`.
pub fn sign_message(message: &str, secret_key_b58: &str) -> (r: Result<
    SignMessageResponse,
    RequestError,
>)
    ensures
        signature_result(r) == sign_message_spec(message@, secret_key_b58@),
        r matches Ok(response) ==> verify_message_spec(
            message@,
            response.signature@,
            response.public_key@,
        ) == Ok::<VerificationView, RequestError>(
            VerificationView { valid: true, message: message@, pubkey: response.public_key@ },
        ),
{
    let secret = match parse_key(secret_key_b58, KeyKind::Secret) {
        Ok(key) => key,
        Err(e) => { return Err(e); },
    };
    let (public, signature) = sign_detached(&secret, message.as_bytes());
    Ok(signature_response(message, &public, &signature))
}

/// Generates a key pair from the operating system's random source. The call
/// always succeeds, and the pair is consistent: the secret half signs, and
/// what it signs verifies under the public half.
pub fn generate_keypair() -> (r: Result<KeypairResponse, RequestError>)
    ensures
        r is Ok,
        keypair_consistent(r->Ok_0@),
{
    let (secret, public) = generate_key_material();
    Ok(keypair_response(&secret, &public))
}

/// With a consistent key pair every message can be signed, and the response
/// names the pair's public key.
pub proof fn lemma_consistent_pair_signs(pair: KeypairView, message: Seq<char>)
    requires
        keypair_consistent(pair),
    ensures
        sign_message_spec(message, pair.secret) is Ok,
        sign_message_spec(message, pair.secret)->Ok_0.public_key == pair.pubkey,
        sign_message_spec(message, pair.secret)->Ok_0.message == message,
{
}

/// With a key text that stands for 32 bytes and a signature text that stands
/// for 64, verification never fails for an encoding or a length. It answers
/// with a verdict, `true` or `false`, unless the key is not a point of the
/// curve or the last byte of the signature is 0x20 or more. So no change to
/// the bytes of a key or a signature that keeps their number can cause any
/// other error than these two.
pub proof fn lemma_verify_on_sized_input(
    message: Seq<char>,
    signature: Seq<char>,
    pubkey: Seq<char>,
    key: Seq<u8>,
    bytes: Seq<u8>,
)
    requires
        base58_decode(pubkey) == Some(key),
        key.len() == 32,
        base64_decode(signature) == Some(bytes),
        bytes.len() == 64,
    ensures
        verify_message_spec(message, signature, pubkey) == (if !ed25519_public_key_valid(key) {
            Err(RequestError::InvalidKeyFormat(KeyKind::Public))
        } else if bytes[63] >= 0x20 {
            Err(RequestError::InvalidSignatureFormat)
        } else {
            Ok(
                VerificationView {
                    valid: ed25519_verifies(key, encode_utf8(message), bytes),
                    message,
                    pubkey,
                },
            )
        }),
{
}

} // verus!
