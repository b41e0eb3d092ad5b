use ed25519_dalek::Verifier;
use solana_http_server::crypto::{
    accept_public_key, accept_signature, generate_keypair, keypair_response, sign_detached,
    sign_message, signature_response, verify_message,
};
use solana_http_server::encoding::{
    format_key, format_signature, parse_key, parse_signature,
};
use solana_http_server::error::{Encoded, KeyKind, RequestError};

fn hex(text: &str) -> Vec<u8> {
    let digits: Vec<u8> = text
        .bytes()
        .map(|c| match c {
            b'0'..=b'9' => c - b'0',
            b'a'..=b'f' => c - b'a' + 10,
            _ => panic!("not a hex digit"),
        })
        .collect();
    digits.chunks(2).map(|pair| pair[0] * 16 + pair[1]).collect()
}

fn array_32(bytes: &[u8]) -> [u8; 32] {
    let mut out = [0u8; 32];
    out.copy_from_slice(bytes);
    out
}

fn array_64(bytes: &[u8]) -> [u8; 64] {
    let mut out = [0u8; 64];
    out.copy_from_slice(bytes);
    out
}

// The second test vector of RFC 8032, section 7.1: a message of one byte, 0x72.
const SECRET_HEX: &str = "4ccd089b28ff96da9db6c346ec114e0f5b8a319f35aba624da8cf6ed4fb8a6fb";
const PUBLIC_HEX: &str = "3d4017c3e843895a92b70aa74d1b7ebc9c982ccf2ec4968cc0cd55f12af4660c";
const SIGNATURE_HEX: &str = "92a009a9f0d4cab8720e820b5f642540a2b27b5416503f8fb3762223ebdb69da\
                             085ac1e43e15996e458f3613d0f11d8c387b2eaeb4302aeeb00d291612bb0c00";

#[test]
fn generated_pair_has_two_keys_of_32_bytes() {
    let pair = generate_keypair().unwrap();
    assert_eq!(bs58::decode(&pair.pubkey).into_vec().unwrap().len(), 32);
    assert_eq!(bs58::decode(&pair.secret).into_vec().unwrap().len(), 32);
    assert_ne!(pair.pubkey, pair.secret);
}

#[test]
fn generated_pairs_differ() {
    let first = generate_keypair().unwrap();
    let second = generate_keypair().unwrap();
    assert_ne!(first.secret, second.secret);
    assert_ne!(first.pubkey, second.pubkey);
}

#[test]
fn generated_public_key_belongs_to_secret_key() {
    let pair = generate_keypair().unwrap();
    let signed = sign_message("any message", &pair.secret).unwrap();
    assert_eq!(signed.public_key, pair.pubkey);
}

#[test]
fn sign_hello_then_verify_hello_and_world() {
    let pair = generate_keypair().unwrap();
    let signed = sign_message("hello", &pair.secret).unwrap();
    assert_eq!(signed.message, "hello");
    assert_eq!(signed.public_key, pair.pubkey);

    let same = verify_message("hello", &signed.signature, &pair.pubkey).unwrap();
    assert!(same.valid);
    assert_eq!(same.message, "hello");
    assert_eq!(same.pubkey, pair.pubkey);

    let other = verify_message("world", &signed.signature, &pair.pubkey).unwrap();
    assert!(!other.valid);
    assert_eq!(other.message, "world");
}

#[test]
fn sign_then_verify_holds_for_many_messages() {
    let pair = generate_keypair().unwrap();
    for message in ["", "a", "hello", "héllo wörld", "line\nbreak", "0123456789".repeat(50).as_str()] {
        let signed = sign_message(message, &pair.secret).unwrap();
        let verdict = verify_message(message, &signed.signature, &signed.public_key).unwrap();
        assert!(verdict.valid, "message {:?}", message);
    }
}

#[test]
fn signature_matches_the_rfc_8032_vector() {
    let secret = format_key(&array_32(&hex(SECRET_HEX)));
    let signed = sign_message("r", &secret).unwrap();
    assert_eq!(signed.public_key, bs58::encode(hex(PUBLIC_HEX)).into_string());
    assert_eq!(parse_signature(&signed.signature).unwrap().to_vec(), hex(SIGNATURE_HEX));
    assert_eq!(signed.message, "r");
}

#[test]
fn rfc_8032_vector_verifies() {
    let public = format_key(&array_32(&hex(PUBLIC_HEX)));
    let signature = format_signature(&array_64(&hex(SIGNATURE_HEX)));
    assert!(verify_message("r", &signature, &public).unwrap().valid);
    assert!(!verify_message("s", &signature, &public).unwrap().valid);
}

#[test]
fn signing_is_deterministic() {
    let pair = generate_keypair().unwrap();
    let first = sign_message("twice", &pair.secret).unwrap();
    let second = sign_message("twice", &pair.secret).unwrap();
    assert_eq!(first.signature, second.signature);
}

#[test]
fn message_is_signed_as_its_utf8_bytes() {
    let pair = generate_keypair().unwrap();
    let message = "grüße, 世界";
    let signed = sign_message(message, &pair.secret).unwrap();
    let public = ed25519_dalek::PublicKey::from_bytes(&parse_key(&pair.pubkey, KeyKind::Public).unwrap()).unwrap();
    let signature = ed25519_dalek::Signature::from_bytes(&parse_signature(&signed.signature).unwrap()).unwrap();
    assert!(public.verify(message.as_bytes(), &signature).is_ok());
}

#[test]
fn flipping_any_bit_of_the_signature_never_verifies() {
    let pair = generate_keypair().unwrap();
    let signed = sign_message("hello", &pair.secret).unwrap();
    let signature = parse_signature(&signed.signature).unwrap();
    for bit in 0..512 {
        let mut flipped = signature;
        flipped[bit / 8] ^= 1 << (bit % 8);
        let outcome = verify_message("hello", &format_signature(&flipped), &pair.pubkey);
        if bit >= 509 {
            // The three highest bits of the last byte: no longer well formed.
            assert_eq!(outcome.unwrap_err(), RequestError::InvalidSignatureFormat, "bit {}", bit);
        } else {
            assert!(!outcome.unwrap().valid, "bit {}", bit);
        }
    }
}

#[test]
fn flipping_any_bit_of_the_public_key_never_verifies() {
    let pair = generate_keypair().unwrap();
    let signed = sign_message("hello", &pair.secret).unwrap();
    let public = parse_key(&pair.pubkey, KeyKind::Public).unwrap();
    for bit in 0..256 {
        let mut flipped = public;
        flipped[bit / 8] ^= 1 << (bit % 8);
        match verify_message("hello", &signed.signature, &format_key(&flipped)) {
            Ok(verdict) => assert!(!verdict.valid, "bit {}", bit),
            Err(e) => assert_eq!(e, RequestError::InvalidKeyFormat(KeyKind::Public), "bit {}", bit),
        }
    }
}

#[test]
fn truncated_signature_is_a_length_error() {
    let pair = generate_keypair().unwrap();
    let short = base64::Engine::encode(&base64::engine::general_purpose::STANDARD, [7u8; 63]);
    let long = base64::Engine::encode(&base64::engine::general_purpose::STANDARD, [7u8; 65]);
    assert_eq!(verify_message("m", &short, &pair.pubkey).unwrap_err(), RequestError::InvalidSignatureLength);
    assert_eq!(verify_message("m", &long, &pair.pubkey).unwrap_err(), RequestError::InvalidSignatureLength);
    assert_eq!(verify_message("m", "", &pair.pubkey).unwrap_err(), RequestError::InvalidSignatureLength);
}

#[test]
fn signature_that_is_not_base64_is_an_encoding_error() {
    let pair = generate_keypair().unwrap();
    for text in ["not base64!", "AAA", "AA=A", "QUJD*A=="] {
        assert_eq!(
            verify_message("m", text, &pair.pubkey).unwrap_err(),
            RequestError::InvalidEncoding(Encoded::Signature),
            "text {:?}",
            text
        );
    }
}

#[test]
fn signature_with_high_bits_set_is_a_format_error() {
    let pair = generate_keypair().unwrap();
    let mut bytes = [0u8; 64];
    bytes[63] = 0x20;
    assert_eq!(
        verify_message("m", &format_signature(&bytes), &pair.pubkey).unwrap_err(),
        RequestError::InvalidSignatureFormat
    );
    bytes[63] = 0x1f;
    assert!(!verify_message("m", &format_signature(&bytes), &pair.pubkey).unwrap().valid);
}

#[test]
fn public_key_errors_come_before_signature_errors() {
    assert_eq!(
        verify_message("m", "not base64!", "0OIl").unwrap_err(),
        RequestError::InvalidEncoding(Encoded::PublicKey)
    );
    let short = bs58::encode([1u8; 31]).into_string();
    assert_eq!(
        verify_message("m", "not base64!", &short).unwrap_err(),
        RequestError::InvalidKeyLength(KeyKind::Public)
    );
    let long = bs58::encode([1u8; 33]).into_string();
    assert_eq!(
        verify_message("m", "not base64!", &long).unwrap_err(),
        RequestError::InvalidKeyLength(KeyKind::Public)
    );
}

#[test]
fn public_key_off_the_curve_is_a_format_error() {
    // y = 2 has no matching x on the curve.
    let mut bytes = [0u8; 32];
    bytes[0] = 2;
    assert!(ed25519_dalek::PublicKey::from_bytes(&bytes).is_err());
    let signature = format_signature(&[0u8; 64]);
    assert_eq!(
        verify_message("m", &signature, &format_key(&bytes)).unwrap_err(),
        RequestError::InvalidKeyFormat(KeyKind::Public)
    );
}

#[test]
fn malformed_base58_secret_key_is_an_encoding_error() {
    for text in ["0", "O", "I", "l", "abc0def", "4vJ9JU1bJJE96FWSJKvHsmmFADCg4gpZQff4P3bkLKiO", "with space", "ünïcode"] {
        assert_eq!(
            sign_message("hello", text).unwrap_err(),
            RequestError::InvalidEncoding(Encoded::SecretKey),
            "text {:?}",
            text
        );
    }
}

#[test]
fn secret_key_of_wrong_length_is_a_length_error() {
    for len in [0usize, 1, 31, 33, 64] {
        let text = bs58::encode(vec![9u8; len]).into_string();
        assert_eq!(
            sign_message("hello", &text).unwrap_err(),
            RequestError::InvalidKeyLength(KeyKind::Secret),
            "length {}",
            len
        );
    }
}

#[test]
fn every_secret_key_of_32_bytes_signs() {
    for fill in [0u8, 1, 0x7f, 0x80, 0xff] {
        let secret = format_key(&[fill; 32]);
        let signed = sign_message("hello", &secret).unwrap();
        assert!(verify_message("hello", &signed.signature, &signed.public_key).unwrap().valid);
    }
}

#[test]
fn sign_detached_gives_the_rfc_8032_vector() {
    let (public, signature) = sign_detached(&array_32(&hex(SECRET_HEX)), b"r");
    assert_eq!(public.to_vec(), hex(PUBLIC_HEX));
    assert_eq!(signature.to_vec(), hex(SIGNATURE_HEX));
}

#[test]
fn sign_detached_gives_the_first_rfc_8032_vector() {
    let secret = hex("9d61b19deffd5a60ba844af492ec2cc44449c5697b326919703bac031cae7f60");
    let (public, signature) = sign_detached(&array_32(&secret), b"");
    assert_eq!(
        public.to_vec(),
        hex("d75a980182b10ab7d54bfed3c964073a0ee172f3daa62325af021a68f707511a")
    );
    assert_eq!(
        signature.to_vec(),
        hex(
            "e5564300c360ac729086e2cc806e828a84877f1eb8e5d974d873e06522490155\
             5fb8821590a33bacc61e39701cf9b46bd25bf5f0595bbe24655141438e7a100b"
        )
    );
}

#[test]
fn sign_detached_results_are_accepted() {
    for fill in [0u8, 3, 200, 255] {
        let (public, signature) = sign_detached(&[fill; 32], b"some bytes \xff\x00");
        assert_eq!(accept_public_key(&public), Ok(()));
        assert_eq!(accept_signature(&signature), Ok(()));
    }
}

#[test]
fn accept_signature_looks_at_the_last_byte_only() {
    for last in 0..=255u8 {
        let mut signature = [0xffu8; 64];
        signature[63] = last;
        let expected = if last < 0x20 { Ok(()) } else { Err(RequestError::InvalidSignatureFormat) };
        assert_eq!(accept_signature(&signature), expected, "last byte {}", last);
    }
}

#[test]
fn accept_public_key_tells_points_from_other_bytes() {
    // The base point of the curve.
    let base = hex("5866666666666666666666666666666666666666666666666666666666666666");
    assert_eq!(accept_public_key(&array_32(&base)), Ok(()));
    let mut off = [0u8; 32];
    off[0] = 2;
    assert_eq!(
        accept_public_key(&off),
        Err(RequestError::InvalidKeyFormat(KeyKind::Public))
    );
}

#[test]
fn responses_hold_the_texts_of_their_bytes() {
    let (secret, public, signature) = ([1u8; 32], [2u8; 32], [3u8; 64]);
    let pair = keypair_response(&secret, &public);
    assert_eq!(pair.secret, bs58::encode(secret).into_string());
    assert_eq!(pair.pubkey, bs58::encode(public).into_string());
    assert_eq!(pair.secret, "4vJ9JU1bJJE96FWSJKvHsmmFADCg4gpZQff4P3bkLKi");

    let signed = signature_response("the message", &public, &signature);
    assert_eq!(signed.message, "the message");
    assert_eq!(signed.public_key, bs58::encode(public).into_string());
    assert_eq!(
        signed.signature,
        base64::Engine::encode(&base64::engine::general_purpose::STANDARD, signature)
    );
    assert_eq!(parse_signature(&signed.signature), Ok(signature));
    assert_eq!(parse_key(&signed.public_key, KeyKind::Public), Ok(public));
}
