//! Textual forms of keys, addresses and signatures: base-58 and base-64.
//!
//! The two codecs are those of the `bs58` and `base64` crates. What they
//! compute is named here, not restated; the library's own rules (which lengths
//! are accepted, which error names which input) are proved over those names.

use vstd::prelude::*;
use crate::error::{AddressField, Encoded, KeyKind, RequestError};

verus! {

/// The number of bytes of an address, and of either key of a pair.
pub const ADDRESS_LEN: usize = 32;

/// The number of bytes of a signature.
pub const SIGNATURE_LEN: usize = 64;

/// The base-58 text of a byte string, in the Bitcoin alphabet.
pub uninterp spec fn base58_encode(bytes: Seq<u8>) -> Seq<char>;

/// The bytes that a base-58 text stands for, if it is one.
pub uninterp spec fn base58_decode(text: Seq<char>) -> Option<Seq<u8>>;

/// The base-64 text of a byte string, in the standard alphabet with padding.
pub uninterp spec fn base64_encode(bytes: Seq<u8>) -> Seq<char>;

/// The bytes that a padded base-64 text stands for, if it is one.
pub uninterp spec fn base64_decode(text: Seq<char>) -> Option<Seq<u8>>;

#[verifier::external_type_specification]
#[verifier::external_body]
pub struct ExBase58Error(bs58::decode::Error);

#[verifier::external_type_specification]
#[verifier::external_body]
pub struct ExBase64Error(base64::DecodeError);

/// `bs58::encode(..).into_string()`. Trusted: the text is the base-58 form of
/// the bytes, and decoding it gives the bytes back.
#[verifier::external_body]
pub(crate) fn base58_to_string(bytes: &[u8]) -> (text: String)
    ensures
        text@ == base58_encode(bytes@),
        base58_decode(text@) == Some(bytes@),
{
    bs58::encode(bytes).into_string()
}

/// `bs58::decode(..).into_vec()`. Trusted: the call succeeds exactly on base-58
/// texts, with the bytes that the text stands for.
#[verifier::external_body]
pub(crate) fn base58_to_vec(text: &str) -> (r: Result<Vec<u8>, bs58::decode::Error>)
    ensures
        match r {
            Ok(bytes) => base58_decode(text@) == Some(bytes@),
            Err(_) => base58_decode(text@) is None,
        },
{
    bs58::decode(text).into_vec()
}

/// `Engine::encode` of `base64::engine::general_purpose::STANDARD`. Trusted:
/// the text is the padded base-64 form of the bytes, and decoding it gives the
/// bytes back. The crate panics when the length of the text overflows `usize`,
/// which happens for no input of at most `isize::MAX` bytes, and no slice is
/// longer.
#[verifier::external_body]
pub(crate) fn base64_to_string(bytes: &[u8]) -> (text: String)
    requires
        bytes@.len() <= isize::MAX,
    ensures
        text@ == base64_encode(bytes@),
        base64_decode(text@) == Some(bytes@),
{
    base64::Engine::encode(&base64::engine::general_purpose::STANDARD, bytes)
}

/// `Engine::decode` of `base64::engine::general_purpose::STANDARD`. Trusted:
/// the call succeeds exactly on padded base-64 texts, with the bytes that the
/// text stands for.
#[verifier::external_body]
pub(crate) fn base64_to_vec(text: &str) -> (r: Result<Vec<u8>, base64::DecodeError>)
    ensures
        match r {
            Ok(bytes) => base64_decode(text@) == Some(bytes@),
            Err(_) => base64_decode(text@) is None,
        },
{
    base64::Engine::decode(&base64::engine::general_purpose::STANDARD, text)
}

/// What `address_from_bytes` returns: the bytes, if there are 32 of them.
pub open spec fn address_from_bytes_spec(bytes: Seq<u8>, field: AddressField) -> Result<
    Seq<u8>,
    RequestError,
> {
    if bytes.len() == ADDRESS_LEN {
        Ok(bytes)
    } else {
        Err(RequestError::InvalidAddress(field))
    }
}

/// What `key_from_bytes` returns: the bytes, if there are 32 of them.
pub open spec fn key_from_bytes_spec(bytes: Seq<u8>, kind: KeyKind) -> Result<
    Seq<u8>,
    RequestError,
> {
    if bytes.len() == ADDRESS_LEN {
        Ok(bytes)
    } else {
        Err(RequestError::InvalidKeyLength(kind))
    }
}

/// What `signature_from_bytes` returns: the bytes, if there are 64 of them.
pub open spec fn signature_from_bytes_spec(bytes: Seq<u8>) -> Result<Seq<u8>, RequestError> {
    if bytes.len() == SIGNATURE_LEN {
        Ok(bytes)
    } else {
        Err(RequestError::InvalidSignatureLength)
    }
}

/// The address that a text stands for: 32 bytes in base-58.
pub open spec fn address_of(text: Seq<char>) -> Option<Seq<u8>> {
    match base58_decode(text) {
        Some(bytes) => if bytes.len() == ADDRESS_LEN {
            Some(bytes)
        } else {
            None
        },
        None => None,
    }
}

/// What `parse_address` returns for a text in the role `field`.
pub open spec fn parse_address_spec(text: Seq<char>, field: AddressField) -> Result<
    Seq<u8>,
    RequestError,
> {
    match base58_decode(text) {
        Some(bytes) => address_from_bytes_spec(bytes, field),
        None => Err(RequestError::InvalidAddress(field)),
    }
}

/// The textual input that holds a key of the given kind.
pub open spec fn encoded_key(kind: KeyKind) -> Encoded {
    match kind {
        KeyKind::Secret => Encoded::SecretKey,
        KeyKind::Public => Encoded::PublicKey,
    }
}

/// What `parse_key` returns: the 32 bytes of the key, or the first failure.
pub open spec fn parse_key_spec(text: Seq<char>, kind: KeyKind) -> Result<Seq<u8>, RequestError> {
    match base58_decode(text) {
        Some(bytes) => key_from_bytes_spec(bytes, kind),
        None => Err(RequestError::InvalidEncoding(encoded_key(kind))),
    }
}

/// What `parse_signature` returns: the 64 bytes of the signature, or the first
/// failure.
pub open spec fn parse_signature_spec(text: Seq<char>) -> Result<Seq<u8>, RequestError> {
    match base64_decode(text) {
        Some(bytes) => signature_from_bytes_spec(bytes),
        None => Err(RequestError::InvalidEncoding(Encoded::Signature)),
    }
}

/// The outcome of a parse with the bytes taken as a sequence.
pub open spec fn bytes_result<const N: usize>(r: Result<[u8; N], RequestError>) -> Result<
    Seq<u8>,
    RequestError,
> {
    match r {
        Ok(bytes) => Ok(bytes@),
        Err(e) => Err(e),
    }
}

/// Copies a slice of exactly 32 bytes into an array.
pub fn array_32(bytes: &[u8]) -> (r: Option<[u8; 32]>)
    ensures
        match r {
            Some(array) => array@ == bytes@,
            None => bytes@.len() != 32,
        },
{
    if bytes.len() != 32 {
        return None;
    }
    let mut out = [0u8; 32];
    let mut i: usize = 0;
    while i < 32
        invariant
            bytes@.len() == 32,
            i <= 32,
            forall|j: int| 0 <= j < i ==> out@[j] == bytes@[j],
        decreases 32 - i,
    {
        out[i] = bytes[i];
        i += 1;
    }
    assert(out@ =~= bytes@);
    Some(out)
}

/// Copies a slice of exactly 64 bytes into an array.
pub fn array_64(bytes: &[u8]) -> (r: Option<[u8; 64]>)
    ensures
        match r {
            Some(array) => array@ == bytes@,
            None => bytes@.len() != 64,
        },
{
    if bytes.len() != 64 {
        return None;
    }
    let mut out = [0u8; 64];
    let mut i: usize = 0;
    while i < 64
        invariant
            bytes@.len() == 64,
            i <= 64,
            forall|j: int| 0 <= j < i ==> out@[j] == bytes@[j],
        decreases 64 - i,
    {
        out[i] = bytes[i];
        i += 1;
    }
    assert(out@ =~= bytes@);
    Some(out)
}

/// Takes decoded bytes as an address: exactly 32 bytes are one, and any other
/// number is refused in the name of the field.
pub fn address_from_bytes(bytes: &[u8], field: AddressField) -> (r: Result<[u8; 32], RequestError>)
    ensures
        bytes_result(r) == address_from_bytes_spec(bytes@, field),
{
    match array_32(bytes) {
        Some(address) => Ok(address),
        None => Err(RequestError::InvalidAddress(field)),
    }
}

/// Takes decoded bytes as a key of a pair: exactly 32 bytes are one.
pub fn key_from_bytes(bytes: &[u8], kind: KeyKind) -> (r: Result<[u8; 32], RequestError>)
    ensures
        bytes_result(r) == key_from_bytes_spec(bytes@, kind),
{
    match array_32(bytes) {
        Some(key) => Ok(key),
        None => Err(RequestError::InvalidKeyLength(kind)),
    }
}

/// Takes decoded bytes as a signature: exactly 64 bytes are one.
pub fn signature_from_bytes(bytes: &[u8]) -> (r: Result<[u8; 64], RequestError>)
    ensures
        bytes_result(r) == signature_from_bytes_spec(bytes@),
{
    match array_64(bytes) {
        Some(signature) => Ok(signature),
        None => Err(RequestError::InvalidSignatureLength),
    }
}

/// Reads an address from its base-58 text. The text is accepted exactly when
/// it stands for 32 bytes; otherwise the error names the field.
pub fn parse_address(text: &str, field: AddressField) -> (r: Result<[u8; 32], RequestError>)
    ensures
        bytes_result(r) == parse_address_spec(text@, field),
        r is Ok <==> address_of(text@) is Some,
        r matches Ok(address) ==> address_of(text@) == Some(address@),
{
    match base58_to_vec(text) {
        Ok(bytes) => address_from_bytes(bytes.as_slice(), field),
        Err(_) => Err(RequestError::InvalidAddress(field)),
    }
}

/// Writes an address as base-58 text. Reading the text gives the address back.
pub fn format_address(address: &[u8; 32]) -> (text: String)
    ensures
        text@ == base58_encode(address@),
        address_of(text@) == Some(address@),
        forall|field: AddressField|
            parse_address_spec(text@, field) == Ok::<Seq<u8>, RequestError>(address@),
{
    base58_to_string(address.as_slice())
}

/// Reads a key of a pair from its base-58 text: bad base-58 is an encoding
/// error, any length but 32 a length error.
pub fn parse_key(text: &str, kind: KeyKind) -> (r: Result<[u8; 32], RequestError>)
    ensures
        bytes_result(r) == parse_key_spec(text@, kind),
{
    match base58_to_vec(text) {
        Ok(bytes) => key_from_bytes(bytes.as_slice(), kind),
        Err(_) => {
            match kind {
                KeyKind::Secret => Err(RequestError::InvalidEncoding(Encoded::SecretKey)),
                KeyKind::Public => Err(RequestError::InvalidEncoding(Encoded::PublicKey)),
            }
        },
    }
}

/// Writes a key of a pair as base-58 text. Reading the text gives the key
/// back, whichever kind it is read as.
pub fn format_key(key: &[u8; 32]) -> (text: String)
    ensures
        text@ == base58_encode(key@),
        forall|kind: KeyKind| parse_key_spec(text@, kind) == Ok::<Seq<u8>, RequestError>(key@),
{
    base58_to_string(key.as_slice())
}

/// Reads a signature from its base-64 text: bad base-64 is an encoding error,
/// any length but 64 a length error.
pub fn parse_signature(text: &str) -> (r: Result<[u8; 64], RequestError>)
    ensures
        bytes_result(r) == parse_signature_spec(text@),
{
    match base64_to_vec(text) {
        Ok(bytes) => signature_from_bytes(bytes.as_slice()),
        Err(_) => Err(RequestError::InvalidEncoding(Encoded::Signature)),
    }
}

/// Writes a signature as base-64 text. Reading the text gives the signature
/// back.
pub fn format_signature(signature: &[u8; 64]) -> (text: String)
    ensures
        text@ == base64_encode(signature@),
        parse_signature_spec(text@) == Ok::<Seq<u8>, RequestError>(signature@),
{
    base64_to_string(signature.as_slice())
}

} // verus!
