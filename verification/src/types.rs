//! The records that requests arrive in and responses leave in.
//!
//! All text fields hold boundary encodings: base-58 for keys and addresses,
//! base-64 for signatures and instruction data. Each response has a view that
//! shows its strings as sequences of characters, for use in contracts.

use vstd::prelude::*;

verus! {

/// A freshly generated key pair, both halves in base-58.
#[derive(Debug, Clone)]
pub struct KeypairResponse {
    pub pubkey: String,
    pub secret: String,
}

/// A request to initialise a mint.
#[derive(Debug, Clone)]
pub struct CreateTokenRequest {
    pub mint_authority: String,
    pub mint: String,
    pub decimals: u8,
}

/// A request to issue tokens of a mint to a token account.
#[derive(Debug, Clone)]
pub struct MintTokenRequest {
    pub mint: String,
    pub destination: String,
    pub authority: String,
    pub amount: u64,
}

/// A request to sign a message with a secret key.
#[derive(Debug, Clone)]
pub struct SignMessageRequest {
    pub message: String,
    pub secret: String,
}

/// A signature, the public key it verifies under, and the message signed.
#[derive(Debug, Clone)]
pub struct SignMessageResponse {
    pub signature: String,
    pub public_key: String,
    pub message: String,
}

/// A request to check a signature on a message.
#[derive(Debug, Clone)]
pub struct VerifyMessageRequest {
    pub message: String,
    pub signature: String,
    pub pubkey: String,
}

/// Whether the signature matched, with the message and key echoed back.
#[derive(Debug, Clone)]
pub struct VerifyMessageResponse {
    pub valid: bool,
    pub message: String,
    pub pubkey: String,
}

/// A request to move lamports between two accounts.
#[derive(Debug, Clone)]
pub struct SendSolRequest {
    pub from: String,
    pub to: String,
    pub lamports: u64,
}

/// A request to move tokens of a mint from an owner's wallet to another.
#[derive(Debug, Clone)]
pub struct SendTokenRequest {
    pub destination: String,
    pub mint: String,
    pub owner: String,
    pub amount: u64,
}

/// One entry of an instruction's account list, the address in base-58.
#[derive(Debug, Clone)]
pub struct AccountMeta {
    pub pubkey: String,
    pub is_signer: bool,
    pub is_writable: bool,
}

/// An unsigned instruction in its boundary form: program id in base-58, the
/// accounts in the order the program expects, the data in base-64.
#[derive(Debug, Clone)]
pub struct InstructionResponse {
    pub program_id: String,
    pub accounts: Vec<AccountMeta>,
    pub instruction_data: String,
}

pub ghost struct KeypairView {
    pub pubkey: Seq<char>,
    pub secret: Seq<char>,
}

pub ghost struct SignatureView {
    pub signature: Seq<char>,
    pub public_key: Seq<char>,
    pub message: Seq<char>,
}

pub ghost struct VerificationView {
    pub valid: bool,
    pub message: Seq<char>,
    pub pubkey: Seq<char>,
}

pub ghost struct AccountMetaView {
    pub pubkey: Seq<char>,
    pub is_signer: bool,
    pub is_writable: bool,
}

pub ghost struct InstructionView {
    pub program_id: Seq<char>,
    pub accounts: Seq<AccountMetaView>,
    pub instruction_data: Seq<char>,
}

impl View for KeypairResponse {
    type V = KeypairView;

    open spec fn view(&self) -> KeypairView {
        KeypairView { pubkey: self.pubkey@, secret: self.secret@ }
    }
}

impl View for SignMessageResponse {
    type V = SignatureView;

    open spec fn view(&self) -> SignatureView {
        SignatureView {
            signature: self.signature@,
            public_key: self.public_key@,
            message: self.message@,
        }
    }
}

impl View for VerifyMessageResponse {
    type V = VerificationView;

    open spec fn view(&self) -> VerificationView {
        VerificationView { valid: self.valid, message: self.message@, pubkey: self.pubkey@ }
    }
}

impl View for AccountMeta {
    type V = AccountMetaView;

    open spec fn view(&self) -> AccountMetaView {
        AccountMetaView {
            pubkey: self.pubkey@,
            is_signer: self.is_signer,
            is_writable: self.is_writable,
        }
    }
}

impl View for InstructionResponse {
    type V = InstructionView;

    open spec fn view(&self) -> InstructionView {
        InstructionView {
            program_id: self.program_id@,
            accounts: self.accounts@.map_values(|a: AccountMeta| a@),
            instruction_data: self.instruction_data@,
        }
    }
}

/// The result that a successful response carries.
#[derive(Debug, Clone)]
pub enum Payload {
    Keypair(KeypairResponse),
    Instruction(InstructionResponse),
    Signature(SignMessageResponse),
    Verification(VerifyMessageResponse),
}

/// The envelope of every response: a result or an error text, never both and
/// never neither.
#[derive(Debug, Clone)]
pub struct ApiResponse {
    pub success: bool,
    pub data: Option<Payload>,
    pub error: Option<String>,
}

pub ghost enum PayloadView {
    Keypair(KeypairView),
    Instruction(InstructionView),
    Signature(SignatureView),
    Verification(VerificationView),
}

pub ghost struct ApiResponseView {
    pub success: bool,
    pub data: Option<PayloadView>,
    pub error: Option<Seq<char>>,
}

impl View for Payload {
    type V = PayloadView;

    open spec fn view(&self) -> PayloadView {
        match self {
            Payload::Keypair(pair) => PayloadView::Keypair(pair@),
            Payload::Instruction(instruction) => PayloadView::Instruction(instruction@),
            Payload::Signature(signature) => PayloadView::Signature(signature@),
            Payload::Verification(verdict) => PayloadView::Verification(verdict@),
        }
    }
}

impl View for ApiResponse {
    type V = ApiResponseView;

    open spec fn view(&self) -> ApiResponseView {
        ApiResponseView {
            success: self.success,
            data: match self.data {
                Some(payload) => Some(payload@),
                None => None,
            },
            error: match self.error {
                Some(text) => Some(text@),
                None => None,
            },
        }
    }
}

impl ApiResponseView {
    /// The envelope of a result.
    pub open spec fn of_data(data: PayloadView) -> ApiResponseView {
        ApiResponseView { success: true, data: Some(data), error: None }
    }

    /// The envelope of an error text.
    pub open spec fn of_error(error: Seq<char>) -> ApiResponseView {
        ApiResponseView { success: false, data: None, error: Some(error) }
    }

    /// Exactly one of result and error is present, and `success` says which.
    pub open spec fn well_formed(self) -> bool {
        &&& self.success <==> self.data is Some
        &&& self.data is Some <==> self.error is None
    }
}

impl ApiResponse {
    /// Wraps a result.
    pub fn success(data: Payload) -> (response: Self)
        ensures
            response@ == ApiResponseView::of_data(data@),
            response@.well_formed(),
    {
        Self { success: true, data: Some(data), error: None }
    }

    /// Wraps an error text.
    pub fn error(error: String) -> (response: Self)
        ensures
            response@ == ApiResponseView::of_error(error@),
            response@.well_formed(),
    {
        Self { success: false, data: None, error: Some(error) }
    }
}

} // verus!
