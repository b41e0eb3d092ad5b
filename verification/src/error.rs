//! The failures that the library reports, and the text shown for each.

use vstd::prelude::*;
use vstd::string::StringExecFns;

verus! {

/// Which of the two keys of a pair an error speaks of.
#[derive(Debug, Clone, Copy, PartialEq, Eq, Structural)]
pub enum KeyKind {
    Secret,
    Public,
}

/// A textual input that is decoded before use.
#[derive(Debug, Clone, Copy, PartialEq, Eq, Structural)]
pub enum Encoded {
    SecretKey,
    PublicKey,
    Signature,
}

/// The role that an address plays in a request.
#[derive(Debug, Clone, Copy, PartialEq, Eq, Structural)]
pub enum AddressField {
    MintAuthority,
    Mint,
    Destination,
    Authority,
    Sender,
    Recipient,
    Owner,
}

/// Why an operation refused its input.
#[derive(Debug, Clone, Copy, PartialEq, Eq, Structural)]
pub enum RequestError {
    /// The text is not valid base-58 (keys) or base-64 (signatures).
    InvalidEncoding(Encoded),
    /// The key decodes, but not to 32 bytes.
    InvalidKeyLength(KeyKind),
    /// The key has the right length but is not a key of the scheme.
    InvalidKeyFormat(KeyKind),
    /// The signature decodes, but not to 64 bytes.
    InvalidSignatureLength,
    /// The signature has 64 bytes but is not well formed.
    InvalidSignatureFormat,
    /// The named address is not the base-58 text of 32 bytes.
    InvalidAddress(AddressField),
    /// An amount of zero where value is to be moved.
    InvalidAmount,
    /// A required string of the request is empty.
    MissingField,
}

impl AddressField {
    /// The words by which a message names the field.
    pub open spec fn label(self) -> Seq<char> {
        match self {
            AddressField::MintAuthority => "mint authority"@,
            AddressField::Mint => "mint"@,
            AddressField::Destination => "destination"@,
            AddressField::Authority => "authority"@,
            AddressField::Sender => "sender"@,
            AddressField::Recipient => "recipient"@,
            AddressField::Owner => "owner"@,
        }
    }

    fn label_str(self) -> (r: &'static str)
        ensures
            r@ == self.label(),
    {
        match self {
            AddressField::MintAuthority => "mint authority",
            AddressField::Mint => "mint",
            AddressField::Destination => "destination",
            AddressField::Authority => "authority",
            AddressField::Sender => "sender",
            AddressField::Recipient => "recipient",
            AddressField::Owner => "owner",
        }
    }
}

impl RequestError {
    /// The text of the error, as a reader of a response sees it.
    pub open spec fn text(self) -> Seq<char> {
        match self {
            RequestError::InvalidEncoding(Encoded::SecretKey) => "Invalid base58 secret key"@,
            RequestError::InvalidEncoding(Encoded::PublicKey) => "Invalid base58 public key"@,
            RequestError::InvalidEncoding(Encoded::Signature) => "Invalid base64 signature"@,
            RequestError::InvalidKeyLength(KeyKind::Secret) => "Secret key must be 32 bytes"@,
            RequestError::InvalidKeyLength(KeyKind::Public) => "Public key must be 32 bytes"@,
            RequestError::InvalidKeyFormat(KeyKind::Secret) => "Invalid secret key format"@,
            RequestError::InvalidKeyFormat(KeyKind::Public) => "Invalid public key format"@,
            RequestError::InvalidSignatureLength => "Signature must be 64 bytes"@,
            RequestError::InvalidSignatureFormat => "Invalid signature format"@,
            RequestError::InvalidAddress(field) => "Invalid "@ + field.label() + " address"@,
            RequestError::InvalidAmount => "Amount must be greater than 0"@,
            RequestError::MissingField => "Missing required fields"@,
        }
    }

    /// Renders the error as text.
    pub fn message(&self) -> (r: String)
        ensures
            r@ == self.text(),
    {
        match *self {
            RequestError::InvalidEncoding(Encoded::SecretKey) => {
                String::from_str("Invalid base58 secret key")
            },
            RequestError::InvalidEncoding(Encoded::PublicKey) => {
                String::from_str("Invalid base58 public key")
            },
            RequestError::InvalidEncoding(Encoded::Signature) => {
                String::from_str("Invalid base64 signature")
            },
            RequestError::InvalidKeyLength(KeyKind::Secret) => {
                String::from_str("Secret key must be 32 bytes")
            },
            RequestError::InvalidKeyLength(KeyKind::Public) => {
                String::from_str("Public key must be 32 bytes")
            },
            RequestError::InvalidKeyFormat(KeyKind::Secret) => {
                String::from_str("Invalid secret key format")
            },
            RequestError::InvalidKeyFormat(KeyKind::Public) => {
                String::from_str("Invalid public key format")
            },
            RequestError::InvalidSignatureLength => String::from_str("Signature must be 64 bytes"),
            RequestError::InvalidSignatureFormat => String::from_str("Invalid signature format"),
            RequestError::InvalidAddress(field) => {
                let mut text = String::from_str("Invalid ");
                text.append(field.label_str());
                text.append(" address");
                text
            },
            RequestError::InvalidAmount => String::from_str("Amount must be greater than 0"),
            RequestError::MissingField => String::from_str("Missing required fields"),
        }
    }
}

} // verus!
