//! What each endpoint answers: the checks made on a request before the core
//! is asked, and the envelope that its result or failure is put in.
//!
//! A request with an empty required string is refused before anything is
//! decoded; one that moves value is refused next if its amount is zero.
//! Whatever the core then refuses is reported with the words of the endpoint in
//! front of the core's own.

use vstd::prelude::*;
use vstd::string::StringExecFns;
use crate::crypto::{
    generate_keypair, keypair_consistent, sign_message, sign_message_spec, verify_message,
    verify_message_spec,
};
use crate::error::RequestError;
use crate::solana_ops::{
    create_mint_instruction, create_mint_to_instruction, create_sol_transfer_instruction,
    create_token_transfer_instruction, mint_instruction_spec, mint_to_instruction_spec,
    sol_transfer_instruction_spec, token_transfer_instruction_spec,
};
use crate::types::{
    ApiResponse, ApiResponseView, CreateTokenRequest, MintTokenRequest, Payload, PayloadView,
    SendSolRequest, SendTokenRequest, SignMessageRequest, VerifyMessageRequest,
};

verus! {

/// The envelope of a refusal: the endpoint's words, then the error's own.
pub open spec fn failure(context: Seq<char>, e: RequestError) -> ApiResponseView {
    ApiResponseView::of_error(context + e.text())
}

/// The envelope of a request refused before the core is asked.
pub open spec fn refusal(e: RequestError) -> ApiResponseView {
    ApiResponseView::of_error(e.text())
}

/// What `respond` answers: the result in an envelope, or the failure under
/// the endpoint's words.
pub open spec fn respond_spec(
    context: Seq<char>,
    outcome: Result<PayloadView, RequestError>,
) -> ApiResponseView {
    match outcome {
        Ok(data) => ApiResponseView::of_data(data),
        Err(e) => failure(context, e),
    }
}

/// The outcome of the core with the payload taken by its view.
pub open spec fn payload_result(outcome: Result<Payload, RequestError>) -> Result<
    PayloadView,
    RequestError,
> {
    match outcome {
        Ok(data) => Ok(data@),
        Err(e) => Err(e),
    }
}

/// Puts an outcome of the core in its envelope.
pub fn respond(context: &str, outcome: Result<Payload, RequestError>) -> (response: ApiResponse)
    ensures
        response@ == respond_spec(context@, payload_result(outcome)),
        response@.well_formed(),
{
    match outcome {
        Ok(data) => ApiResponse::success(data),
        Err(e) => {
            let mut text = String::from_str(context);
            text.append(e.message().as_str());
            ApiResponse::error(text)
        },
    }
}

/// Refuses a request before the core is asked.
pub fn refuse(e: RequestError) -> (response: ApiResponse)
    ensures
        response@ == refusal(e),
        response@.well_formed(),
{
    ApiResponse::error(e.message())
}

/// Answers a request for a new key pair. The answer always carries a pair,
/// and the pair is consistent.
pub fn handle_generate_keypair() -> (response: ApiResponse)
    ensures
        response@.well_formed(),
        response@.success,
        response@.data matches Some(PayloadView::Keypair(pair)) && keypair_consistent(pair),
{
    let outcome = match generate_keypair() {
        Ok(pair) => Ok(Payload::Keypair(pair)),
        Err(e) => Err(e),
    };
    respond("Failed to generate keypair: ", outcome)
}

/// What `handle_create_token` answers.
pub open spec fn handle_create_token_spec(req: CreateTokenRequest) -> ApiResponseView {
    if req.mint_authority@.len() == 0 || req.mint@.len() == 0 {
        refusal(RequestError::MissingField)
    } else {
        match mint_instruction_spec(req.mint_authority@, req.mint@, req.decimals) {
            Ok(data) => ApiResponseView::of_data(PayloadView::Instruction(data)),
            Err(e) => failure("Failed to create token instruction: "@, e),
        }
    }
}

/// Answers a request to initialise a mint.
pub fn handle_create_token(req: CreateTokenRequest) -> (response: ApiResponse)
    ensures
        response@ == handle_create_token_spec(req),
        response@.well_formed(),
{
    if req.mint_authority.as_str().is_empty() || req.mint.as_str().is_empty() {
        return refuse(RequestError::MissingField);
    }
    let outcome = match create_mint_instruction(
        req.mint_authority.as_str(),
        req.mint.as_str(),
        req.decimals,
    ) {
        Ok(data) => Ok(Payload::Instruction(data)),
        Err(e) => Err(e),
    };
    respond("Failed to create token instruction: ", outcome)
}

/// What `handle_mint_token` answers.
pub open spec fn handle_mint_token_spec(req: MintTokenRequest) -> ApiResponseView {
    if req.mint@.len() == 0 || req.destination@.len() == 0 || req.authority@.len() == 0 {
        refusal(RequestError::MissingField)
    } else if req.amount == 0 {
        refusal(RequestError::InvalidAmount)
    } else {
        match mint_to_instruction_spec(req.mint@, req.destination@, req.authority@, req.amount) {
            Ok(data) => ApiResponseView::of_data(PayloadView::Instruction(data)),
            Err(e) => failure("Failed to create mint instruction: "@, e),
        }
    }
}

/// Answers a request to issue tokens.
pub fn handle_mint_token(req: MintTokenRequest) -> (response: ApiResponse)
    ensures
        response@ == handle_mint_token_spec(req),
        response@.well_formed(),
{
    if req.mint.as_str().is_empty() || req.destination.as_str().is_empty()
        || req.authority.as_str().is_empty() {
        return refuse(RequestError::MissingField);
    }
    if req.amount == 0 {
        return refuse(RequestError::InvalidAmount);
    }
    let outcome = match create_mint_to_instruction(
        req.mint.as_str(),
        req.destination.as_str(),
        req.authority.as_str(),
        req.amount,
    ) {
        Ok(data) => Ok(Payload::Instruction(data)),
        Err(e) => Err(e),
    };
    respond("Failed to create mint instruction: ", outcome)
}

/// What `handle_sign_message` answers.
pub open spec fn handle_sign_message_spec(req: SignMessageRequest) -> ApiResponseView {
    if req.message@.len() == 0 || req.secret@.len() == 0 {
        refusal(RequestError::MissingField)
    } else {
        match sign_message_spec(req.message@, req.secret@) {
            Ok(data) => ApiResponseView::of_data(PayloadView::Signature(data)),
            Err(e) => failure("Failed to sign message: "@, e),
        }
    }
}

/// Answers a request to sign a message.
pub fn handle_sign_message(req: SignMessageRequest) -> (response: ApiResponse)
    ensures
        response@ == handle_sign_message_spec(req),
        response@.well_formed(),
{
    if req.message.as_str().is_empty() || req.secret.as_str().is_empty() {
        return refuse(RequestError::MissingField);
    }
    let outcome = match sign_message(req.message.as_str(), req.secret.as_str()) {
        Ok(data) => Ok(Payload::Signature(data)),
        Err(e) => Err(e),
    };
    respond("Failed to sign message: ", outcome)
}

/// What `handle_verify_message` answers.
pub open spec fn handle_verify_message_spec(req: VerifyMessageRequest) -> ApiResponseView {
    if req.message@.len() == 0 || req.signature@.len() == 0 || req.pubkey@.len() == 0 {
        refusal(RequestError::MissingField)
    } else {
        match verify_message_spec(req.message@, req.signature@, req.pubkey@) {
            Ok(data) => ApiResponseView::of_data(PayloadView::Verification(data)),
            Err(e) => failure("Failed to verify message: "@, e),
        }
    }
}

/// Answers a request to check a signature.
pub fn handle_verify_message(req: VerifyMessageRequest) -> (response: ApiResponse)
    ensures
        response@ == handle_verify_message_spec(req),
        response@.well_formed(),
{
    if req.message.as_str().is_empty() || req.signature.as_str().is_empty()
        || req.pubkey.as_str().is_empty() {
        return refuse(RequestError::MissingField);
    }
    let outcome = match verify_message(
        req.message.as_str(),
        req.signature.as_str(),
        req.pubkey.as_str(),
    ) {
        Ok(data) => Ok(Payload::Verification(data)),
        Err(e) => Err(e),
    };
    respond("Failed to verify message: ", outcome)
}

/// What `handle_send_sol` answers.
pub open spec fn handle_send_sol_spec(req: SendSolRequest) -> ApiResponseView {
    if req.from@.len() == 0 || req.to@.len() == 0 {
        refusal(RequestError::MissingField)
    } else if req.lamports == 0 {
        refusal(RequestError::InvalidAmount)
    } else {
        match sol_transfer_instruction_spec(req.from@, req.to@, req.lamports) {
            Ok(data) => ApiResponseView::of_data(PayloadView::Instruction(data)),
            Err(e) => failure("Failed to create transfer instruction: "@, e),
        }
    }
}

/// Answers a request to move lamports.
pub fn handle_send_sol(req: SendSolRequest) -> (response: ApiResponse)
    ensures
        response@ == handle_send_sol_spec(req),
        response@.well_formed(),
{
    if req.from.as_str().is_empty() || req.to.as_str().is_empty() {
        return refuse(RequestError::MissingField);
    }
    if req.lamports == 0 {
        return refuse(RequestError::InvalidAmount);
    }
    let outcome = match create_sol_transfer_instruction(
        req.from.as_str(),
        req.to.as_str(),
        req.lamports,
    ) {
        Ok(data) => Ok(Payload::Instruction(data)),
        Err(e) => Err(e),
    };
    respond("Failed to create transfer instruction: ", outcome)
}

/// What `handle_send_token` answers.
pub open spec fn handle_send_token_spec(req: SendTokenRequest) -> ApiResponseView {
    if req.destination@.len() == 0 || req.mint@.len() == 0 || req.owner@.len() == 0 {
        refusal(RequestError::MissingField)
    } else if req.amount == 0 {
        refusal(RequestError::InvalidAmount)
    } else {
        match token_transfer_instruction_spec(req.mint@, req.owner@, req.destination@, req.amount) {
            Ok(data) => ApiResponseView::of_data(PayloadView::Instruction(data)),
            Err(e) => failure("Failed to create token transfer instruction: "@, e),
        }
    }
}

/// Answers a request to move tokens between wallets.
pub fn handle_send_token(req: SendTokenRequest) -> (response: ApiResponse)
    ensures
        response@ == handle_send_token_spec(req),
        response@.well_formed(),
{
    if req.destination.as_str().is_empty() || req.mint.as_str().is_empty()
        || req.owner.as_str().is_empty() {
        return refuse(RequestError::MissingField);
    }
    if req.amount == 0 {
        return refuse(RequestError::InvalidAmount);
    }
    let outcome = match create_token_transfer_instruction(
        req.mint.as_str(),
        req.owner.as_str(),
        req.destination.as_str(),
        req.amount,
    ) {
        Ok(data) => Ok(Payload::Instruction(data)),
        Err(e) => Err(e),
    };
    respond("Failed to create token transfer instruction: ", outcome)
}

} // verus!
