use solana_http_server::encoding::{
    address_from_bytes, array_32, array_64, format_address, format_key, format_signature,
    key_from_bytes, parse_address, parse_key, parse_signature, signature_from_bytes,
};
use solana_http_server::error::{AddressField, Encoded, KeyKind, RequestError};

fn pattern_32(seed: u8) -> [u8; 32] {
    let mut out = [0u8; 32];
    for (i, byte) in out.iter_mut().enumerate() {
        *byte = seed.wrapping_mul(31).wrapping_add((i as u8).wrapping_mul(17));
    }
    out
}

fn pattern_64(seed: u8) -> [u8; 64] {
    let mut out = [0u8; 64];
    for (i, byte) in out.iter_mut().enumerate() {
        *byte = seed.wrapping_mul(29).wrapping_add((i as u8).wrapping_mul(13));
    }
    out
}

#[test]
fn address_round_trip() {
    for seed in 0..=255u8 {
        let address = pattern_32(seed);
        let text = format_address(&address);
        assert_eq!(parse_address(&text, AddressField::Owner), Ok(address));
    }
}

#[test]
fn address_round_trip_at_the_edges() {
    for address in [[0u8; 32], [255u8; 32], {
        let mut a = [0u8; 32];
        a[31] = 1;
        a
    }, {
        let mut a = [0u8; 32];
        a[0] = 1;
        a
    }] {
        assert_eq!(parse_address(&format_address(&address), AddressField::Mint), Ok(address));
    }
}

#[test]
fn address_text_is_base58() {
    assert_eq!(format_address(&[0u8; 32]), "11111111111111111111111111111111");
    let mut one = [0u8; 32];
    one[31] = 1;
    assert_eq!(format_address(&one), "11111111111111111111111111111112");
    let mut big = [0u8; 32];
    big[31] = 58;
    assert_eq!(format_address(&big), format!("{}21", "1".repeat(31)));
}

#[test]
fn address_text_differs_from_its_bytes() {
    let address = pattern_32(3);
    assert_ne!(format_address(&address).as_bytes(), &address[..]);
    assert_ne!(format_key(&address).as_bytes(), &address[..]);
}

#[test]
fn signature_round_trip() {
    for seed in 0..=255u8 {
        let signature = pattern_64(seed);
        let text = format_signature(&signature);
        assert_eq!(parse_signature(&text), Ok(signature));
    }
}

#[test]
fn signature_text_is_padded_base64() {
    assert_eq!(
        format_signature(&[0u8; 64]),
        format!("{}==", "A".repeat(86))
    );
    assert_eq!(
        format_signature(&[255u8; 64]),
        format!("{}w==", "/".repeat(85))
    );
}

#[test]
fn key_round_trip_for_both_kinds() {
    for seed in [0u8, 1, 77, 255] {
        let key = pattern_32(seed);
        let text = format_key(&key);
        assert_eq!(parse_key(&text, KeyKind::Secret), Ok(key));
        assert_eq!(parse_key(&text, KeyKind::Public), Ok(key));
    }
}

#[test]
fn address_error_names_its_field() {
    for field in [
        AddressField::MintAuthority,
        AddressField::Mint,
        AddressField::Destination,
        AddressField::Authority,
        AddressField::Sender,
        AddressField::Recipient,
        AddressField::Owner,
    ] {
        assert_eq!(parse_address("0", field), Err(RequestError::InvalidAddress(field)));
        assert_eq!(parse_address("2", field), Err(RequestError::InvalidAddress(field)));
    }
}

#[test]
fn key_errors_tell_encoding_from_length() {
    assert_eq!(
        parse_key("l", KeyKind::Secret),
        Err(RequestError::InvalidEncoding(Encoded::SecretKey))
    );
    assert_eq!(
        parse_key("l", KeyKind::Public),
        Err(RequestError::InvalidEncoding(Encoded::PublicKey))
    );
    assert_eq!(parse_key("", KeyKind::Secret), Err(RequestError::InvalidKeyLength(KeyKind::Secret)));
    assert_eq!(
        parse_key("2g", KeyKind::Public),
        Err(RequestError::InvalidKeyLength(KeyKind::Public))
    );
}

#[test]
fn signature_errors_tell_encoding_from_length() {
    assert_eq!(parse_signature("%%%"), Err(RequestError::InvalidEncoding(Encoded::Signature)));
    assert_eq!(parse_signature("AAAA"), Err(RequestError::InvalidSignatureLength));
    assert_eq!(parse_signature(""), Err(RequestError::InvalidSignatureLength));
    // Padding is required.
    let unpadded = "A".repeat(86);
    assert_eq!(parse_signature(&unpadded), Err(RequestError::InvalidEncoding(Encoded::Signature)));
}

#[test]
fn arrays_are_made_of_exactly_their_length() {
    for len in [0usize, 1, 31, 32, 33, 63, 64, 65, 100] {
        let bytes: Vec<u8> = (0..len).map(|i| i as u8).collect();
        assert_eq!(array_32(&bytes).map(|a| a.to_vec()), if len == 32 { Some(bytes.clone()) } else { None });
        assert_eq!(array_64(&bytes).map(|a| a.to_vec()), if len == 64 { Some(bytes.clone()) } else { None });
    }
}

#[test]
fn decoded_bytes_of_another_length_are_refused() {
    for len in [0usize, 31, 33] {
        let bytes = vec![1u8; len];
        assert_eq!(
            address_from_bytes(&bytes, AddressField::Sender),
            Err(RequestError::InvalidAddress(AddressField::Sender))
        );
        assert_eq!(
            key_from_bytes(&bytes, KeyKind::Secret),
            Err(RequestError::InvalidKeyLength(KeyKind::Secret))
        );
        assert_eq!(
            key_from_bytes(&bytes, KeyKind::Public),
            Err(RequestError::InvalidKeyLength(KeyKind::Public))
        );
    }
    for len in [0usize, 32, 63, 65] {
        assert_eq!(signature_from_bytes(&vec![1u8; len]), Err(RequestError::InvalidSignatureLength));
    }
    assert_eq!(address_from_bytes(&[4u8; 32], AddressField::Mint), Ok([4u8; 32]));
    assert_eq!(key_from_bytes(&[4u8; 32], KeyKind::Public), Ok([4u8; 32]));
    assert_eq!(signature_from_bytes(&[4u8; 64]), Ok([4u8; 64]));
}
