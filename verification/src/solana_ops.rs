//! The instruction encoder: from the addresses and amounts of a request to an
//! unsigned instruction in its boundary form.
//!
//! Each builder checks its addresses in the order given below, then its
//! amount, and only then builds. An instruction is never partly built: the
//! result is the whole instruction or the first failure.

use vstd::prelude::*;
use crate::encoding::{
    address_of, base58_decode, base58_encode, base64_encode, base64_to_string, format_address,
    parse_address,
};
use crate::error::{AddressField, RequestError};
use crate::instruction::{
    associated_token_address, build_initialize_mint, build_initialize_mint_spec, build_mint_to,
    build_mint_to_spec, build_sol_transfer, build_sol_transfer_spec, build_token_transfer,
    build_token_transfer_spec, readonly, token_transfer_model, u64_le_bytes, writable,
    AccountModel, Instruction, InstructionModel, TOKEN_PROGRAM_ID,
};
use crate::types::{AccountMeta, AccountMetaView, InstructionResponse, InstructionView};

verus! {

/// An account entry with its address written in base-58.
pub open spec fn account_text(account: AccountModel) -> AccountMetaView {
    AccountMetaView {
        pubkey: base58_encode(account.address),
        is_signer: account.is_signer,
        is_writable: account.is_writable,
    }
}

/// The boundary form of an instruction: addresses in base-58, data in base-64,
/// the accounts in their order.
pub open spec fn instruction_text(instruction: InstructionModel) -> InstructionView {
    InstructionView {
        program_id: base58_encode(instruction.program_id),
        accounts: instruction.accounts.map_values(|a: AccountModel| account_text(a)),
        instruction_data: base64_encode(instruction.data),
    }
}

/// The outcome of a builder with the response taken by its view.
pub open spec fn response_result(r: Result<InstructionResponse, RequestError>) -> Result<
    InstructionView,
    RequestError,
> {
    match r {
        Ok(response) => Ok(response@),
        Err(e) => Err(e),
    }
}

/// Writes an instruction in its boundary form. The data may have any length
/// that memory allows: no vector holds more than `isize::MAX` bytes.
pub fn encode_instruction(instruction: &Instruction) -> (response: InstructionResponse)
    requires
        instruction.data@.len() <= isize::MAX,
    ensures
        response@ == instruction_text(instruction@),
{
    let mut accounts: Vec<AccountMeta> = Vec::new();
    let mut i: usize = 0;
    while i < instruction.accounts.len()
        invariant
            i <= instruction.accounts@.len(),
            accounts@.len() == i,
            forall|j: int|
                0 <= j < i ==> (#[trigger] accounts@[j])@ == account_text(
                    instruction.accounts@[j]@,
                ),
        decreases instruction.accounts@.len() - i,
    {
        let account = &instruction.accounts[i];
        accounts.push(AccountMeta {
            pubkey: format_address(&account.address),
            is_signer: account.is_signer,
            is_writable: account.is_writable,
        });
        i += 1;
    }
    let response = InstructionResponse {
        program_id: format_address(&instruction.program_id),
        accounts,
        instruction_data: base64_to_string(instruction.data.as_slice()),
    };
    assert(response@.accounts =~= instruction_text(instruction@).accounts);
    response
}

/// The outcome of a builder written in its boundary form.
pub open spec fn text_result(r: Result<InstructionModel, RequestError>) -> Result<
    InstructionView,
    RequestError,
> {
    match r {
        Ok(instruction) => Ok(instruction_text(instruction)),
        Err(e) => Err(e),
    }
}

/// What `create_token_transfer_instruction` returns. The addresses are read
/// in the order mint, owner, destination; then the instruction is built.
pub open spec fn token_transfer_instruction_spec(
    mint: Seq<char>,
    owner: Seq<char>,
    destination: Seq<char>,
    amount: u64,
) -> Result<InstructionView, RequestError> {
    if address_of(mint) is None {
        Err(RequestError::InvalidAddress(AddressField::Mint))
    } else if address_of(owner) is None {
        Err(RequestError::InvalidAddress(AddressField::Owner))
    } else if address_of(destination) is None {
        Err(RequestError::InvalidAddress(AddressField::Destination))
    } else {
        text_result(
            build_token_transfer_spec(
                address_of(mint)->Some_0,
                address_of(owner)->Some_0,
                address_of(destination)->Some_0,
                amount,
            ),
        )
    }
}

/// Builds the transfer of `amount` tokens of `mint` between the associated
/// token accounts of two wallets, from addresses in base-58.
pub fn create_token_transfer_instruction(
    mint: &str,
    owner: &str,
    destination: &str,
    amount: u64,
) -> (r: Result<InstructionResponse, RequestError>)
    ensures
        response_result(r) == token_transfer_instruction_spec(mint@, owner@, destination@, amount),
{
    let mint_address = match parse_address(mint, AddressField::Mint) {
        Ok(address) => address,
        Err(e) => { return Err(e); },
    };
    let owner_address = match parse_address(owner, AddressField::Owner) {
        Ok(address) => address,
        Err(e) => { return Err(e); },
    };
    let destination_address = match parse_address(destination, AddressField::Destination) {
        Ok(address) => address,
        Err(e) => { return Err(e); },
    };
    match build_token_transfer(&mint_address, &owner_address, &destination_address, amount) {
        Ok(instruction) => Ok(encode_instruction(&instruction)),
        Err(e) => Err(e),
    }
}

/// What `create_mint_to_instruction` returns. The addresses are read in the
/// order mint, destination, authority; then the instruction is built.
pub open spec fn mint_to_instruction_spec(
    mint: Seq<char>,
    destination: Seq<char>,
    authority: Seq<char>,
    amount: u64,
) -> Result<InstructionView, RequestError> {
    if address_of(mint) is None {
        Err(RequestError::InvalidAddress(AddressField::Mint))
    } else if address_of(destination) is None {
        Err(RequestError::InvalidAddress(AddressField::Destination))
    } else if address_of(authority) is None {
        Err(RequestError::InvalidAddress(AddressField::Authority))
    } else {
        text_result(
            build_mint_to_spec(
                address_of(mint)->Some_0,
                address_of(destination)->Some_0,
                address_of(authority)->Some_0,
                amount,
            ),
        )
    }
}

/// Builds the issuance of `amount` new tokens of `mint` to the token account
/// `destination`, from addresses in base-58.
pub fn create_mint_to_instruction(
    mint: &str,
    destination: &str,
    authority: &str,
    amount: u64,
) -> (r: Result<InstructionResponse, RequestError>)
    ensures
        response_result(r) == mint_to_instruction_spec(mint@, destination@, authority@, amount),
{
    let mint_address = match parse_address(mint, AddressField::Mint) {
        Ok(address) => address,
        Err(e) => { return Err(e); },
    };
    let destination_address = match parse_address(destination, AddressField::Destination) {
        Ok(address) => address,
        Err(e) => { return Err(e); },
    };
    let authority_address = match parse_address(authority, AddressField::Authority) {
        Ok(address) => address,
        Err(e) => { return Err(e); },
    };
    match build_mint_to(&mint_address, &destination_address, &authority_address, amount) {
        Ok(instruction) => Ok(encode_instruction(&instruction)),
        Err(e) => Err(e),
    }
}

/// What `create_mint_instruction` returns. The mint authority is read before
/// the mint.
pub open spec fn mint_instruction_spec(
    mint_authority: Seq<char>,
    mint: Seq<char>,
    decimals: u8,
) -> Result<InstructionView, RequestError> {
    if address_of(mint_authority) is None {
        Err(RequestError::InvalidAddress(AddressField::MintAuthority))
    } else if address_of(mint) is None {
        Err(RequestError::InvalidAddress(AddressField::Mint))
    } else {
        Ok(
            instruction_text(
                build_initialize_mint_spec(
                    address_of(mint_authority)->Some_0,
                    address_of(mint)->Some_0,
                    decimals,
                ),
            ),
        )
    }
}

/// Builds the initialisation of `mint` with the given number of decimals, from
/// addresses in base-58.
pub fn create_mint_instruction(mint_authority: &str, mint: &str, decimals: u8) -> (r: Result<
    InstructionResponse,
    RequestError,
>)
    ensures
        response_result(r) == mint_instruction_spec(mint_authority@, mint@, decimals),
{
    let authority = match parse_address(mint_authority, AddressField::MintAuthority) {
        Ok(address) => address,
        Err(e) => { return Err(e); },
    };
    let mint_address = match parse_address(mint, AddressField::Mint) {
        Ok(address) => address,
        Err(e) => { return Err(e); },
    };
    Ok(encode_instruction(&build_initialize_mint(&authority, &mint_address, decimals)))
}

/// What `create_sol_transfer_instruction` returns. The sender is read before
/// the recipient; then the instruction is built.
pub open spec fn sol_transfer_instruction_spec(
    from: Seq<char>,
    to: Seq<char>,
    lamports: u64,
) -> Result<InstructionView, RequestError> {
    if address_of(from) is None {
        Err(RequestError::InvalidAddress(AddressField::Sender))
    } else if address_of(to) is None {
        Err(RequestError::InvalidAddress(AddressField::Recipient))
    } else {
        text_result(
            build_sol_transfer_spec(address_of(from)->Some_0, address_of(to)->Some_0, lamports),
        )
    }
}

/// Builds the transfer of `lamports` from one account to another by the system
/// program, from addresses in base-58.
pub fn create_sol_transfer_instruction(from: &str, to: &str, lamports: u64) -> (r: Result<
    InstructionResponse,
    RequestError,
>)
    ensures
        response_result(r) == sol_transfer_instruction_spec(from@, to@, lamports),
{
    let sender = match parse_address(from, AddressField::Sender) {
        Ok(address) => address,
        Err(e) => { return Err(e); },
    };
    let recipient = match parse_address(to, AddressField::Recipient) {
        Ok(address) => address,
        Err(e) => { return Err(e); },
    };
    match build_sol_transfer(&sender, &recipient, lamports) {
        Ok(instruction) => Ok(encode_instruction(&instruction)),
        Err(e) => Err(e),
    }
}

/// A transfer of zero lamports between two well-formed addresses is refused
/// for its amount. A transfer with an address that is no base-58 text, or that
/// decodes to fewer or more than 32 bytes, is refused for that address,
/// whatever the amount; the sender is named before the recipient.
pub proof fn lemma_sol_transfer_refusals(from: Seq<char>, to: Seq<char>, lamports: u64)
    ensures
        address_of(from) is Some && address_of(to) is Some && lamports == 0
            ==> sol_transfer_instruction_spec(from, to, lamports) == Err::<InstructionView, _>(
            RequestError::InvalidAmount,
        ),
        address_of(from) is Some && address_of(to) is Some && lamports != 0
            ==> sol_transfer_instruction_spec(from, to, lamports) is Ok,
        (base58_decode(from) matches Some(bytes) ==> bytes.len() != 32)
            ==> sol_transfer_instruction_spec(from, to, lamports) == Err::<InstructionView, _>(
            RequestError::InvalidAddress(AddressField::Sender),
        ),
        address_of(from) is Some && (base58_decode(to) matches Some(bytes) ==> bytes.len() != 32)
            ==> sol_transfer_instruction_spec(from, to, lamports) == Err::<InstructionView, _>(
            RequestError::InvalidAddress(AddressField::Recipient),
        ),
{
}

/// Every token transfer that is built lists exactly three accounts: the
/// owner's associated token account, writable; the destination wallet's
/// associated token account, writable; and the owner, who signs and is only
/// read. It runs on the token program, and its data is the opcode 3 followed
/// by the amount.
pub proof fn lemma_token_transfer_accounts(
    mint: Seq<char>,
    owner: Seq<char>,
    destination: Seq<char>,
    amount: u64,
)
    requires
        token_transfer_instruction_spec(mint, owner, destination, amount) is Ok,
    ensures
        ({
            let built = token_transfer_instruction_spec(mint, owner, destination, amount)->Ok_0;
            let mint_address = address_of(mint)->Some_0;
            let owner_address = address_of(owner)->Some_0;
            let destination_address = address_of(destination)->Some_0;
            &&& address_of(mint) is Some
            &&& address_of(owner) is Some
            &&& address_of(destination) is Some
            &&& amount > 0
            &&& built.program_id == base58_encode(TOKEN_PROGRAM_ID@)
            &&& built.accounts == seq![
                AccountMetaView {
                    pubkey: base58_encode(associated_token_address(owner_address, mint_address)),
                    is_signer: false,
                    is_writable: true,
                },
                AccountMetaView {
                    pubkey: base58_encode(
                        associated_token_address(destination_address, mint_address),
                    ),
                    is_signer: false,
                    is_writable: true,
                },
                AccountMetaView {
                    pubkey: base58_encode(owner_address),
                    is_signer: true,
                    is_writable: false,
                },
            ]
            &&& built.instruction_data == base64_encode(seq![3u8] + u64_le_bytes(amount))
        }),
{
    let mint_address = address_of(mint)->Some_0;
    let owner_address = address_of(owner)->Some_0;
    let destination_address = address_of(destination)->Some_0;
    let source = associated_token_address(owner_address, mint_address);
    let target = associated_token_address(destination_address, mint_address);
    let built = token_transfer_instruction_spec(mint, owner, destination, amount)->Ok_0;
    assert(built == instruction_text(token_transfer_model(source, target, owner_address, amount)));
    assert(built.accounts =~= seq![
        account_text(writable(source, false)),
        account_text(writable(target, false)),
        account_text(readonly(owner_address, true)),
    ]);
}

} // verus!
