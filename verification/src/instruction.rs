//! Instructions in binary form: what the system and token programs are sent.
//!
//! The instructions themselves are built by the `solana-sdk`, `spl-token` and
//! `spl-associated-token-account` crates. This module holds them as plain
//! bytes and flags, and states for each builder the account list and the data
//! layout that the target program expects.

use vstd::prelude::*;
use vstd::pervasive::unreached;
use solana_sdk::pubkey::Pubkey;
use crate::error::{AddressField, RequestError};

verus! {

/// The address of the token program.
pub const TOKEN_PROGRAM_ID: [u8; 32] = [
    6, 221, 246, 225, 215, 101, 161, 147, 217, 203, 225, 70, 206, 235, 121, 172,
    28, 180, 133, 237, 95, 91, 55, 145, 58, 140, 245, 133, 126, 255, 0, 169,
];

/// The address of the system program.
pub const SYSTEM_PROGRAM_ID: [u8; 32] = [
    0, 0, 0, 0, 0, 0, 0, 0, 0, 0, 0, 0, 0, 0, 0, 0,
    0, 0, 0, 0, 0, 0, 0, 0, 0, 0, 0, 0, 0, 0, 0, 0,
];

/// The address of the rent sysvar.
pub const RENT_SYSVAR_ID: [u8; 32] = [
    6, 167, 213, 23, 25, 44, 92, 81, 33, 140, 201, 76, 61, 74, 241, 127,
    88, 218, 238, 8, 155, 161, 253, 68, 227, 219, 217, 138, 0, 0, 0, 0,
];

/// One entry of an instruction's account list.
#[derive(Debug, Clone, Copy)]
pub struct AccountRef {
    pub address: [u8; 32],
    pub is_signer: bool,
    pub is_writable: bool,
}

/// An instruction: the program to run, the accounts it touches, in the order
/// the program expects them, and the data it is handed.
#[derive(Debug, Clone)]
pub struct Instruction {
    pub program_id: [u8; 32],
    pub accounts: Vec<AccountRef>,
    pub data: Vec<u8>,
}

pub ghost struct AccountModel {
    pub address: Seq<u8>,
    pub is_signer: bool,
    pub is_writable: bool,
}

pub ghost struct InstructionModel {
    pub program_id: Seq<u8>,
    pub accounts: Seq<AccountModel>,
    pub data: Seq<u8>,
}

impl View for AccountRef {
    type V = AccountModel;

    open spec fn view(&self) -> AccountModel {
        AccountModel {
            address: self.address@,
            is_signer: self.is_signer,
            is_writable: self.is_writable,
        }
    }
}

impl View for Instruction {
    type V = InstructionModel;

    open spec fn view(&self) -> InstructionModel {
        InstructionModel {
            program_id: self.program_id@,
            accounts: self.accounts@.map_values(|a: AccountRef| a@),
            data: self.data@,
        }
    }
}

/// The eight bytes of an amount, least significant first.
pub open spec fn u64_le_bytes(x: u64) -> Seq<u8> {
    seq![
        (x % 0x100) as u8,
        (x / 0x100 % 0x100) as u8,
        (x / 0x1_0000 % 0x100) as u8,
        (x / 0x100_0000 % 0x100) as u8,
        (x / 0x1_0000_0000 % 0x100) as u8,
        (x / 0x100_0000_0000 % 0x100) as u8,
        (x / 0x1_0000_0000_0000 % 0x100) as u8,
        (x / 0x100_0000_0000_0000 % 0x100) as u8,
    ]
}

/// An account that the instruction may write to.
pub open spec fn writable(address: Seq<u8>, is_signer: bool) -> AccountModel {
    AccountModel { address, is_signer, is_writable: true }
}

/// An account that the instruction only reads.
pub open spec fn readonly(address: Seq<u8>, is_signer: bool) -> AccountModel {
    AccountModel { address, is_signer, is_writable: false }
}

/// A transfer of lamports by the system program: the sender signs and is
/// debited, the recipient is credited. The data is the instruction's index, 2,
/// in four bytes, then the amount in eight, both little-endian.
pub open spec fn system_transfer_model(
    from: Seq<u8>,
    to: Seq<u8>,
    lamports: u64,
) -> InstructionModel {
    InstructionModel {
        program_id: SYSTEM_PROGRAM_ID@,
        accounts: seq![writable(from, true), writable(to, false)],
        data: seq![2u8, 0u8, 0u8, 0u8] + u64_le_bytes(lamports),
    }
}

/// A transfer of tokens between two token accounts, signed by the owner of the
/// source. The data is the opcode 3, then the amount little-endian.
pub open spec fn token_transfer_model(
    source: Seq<u8>,
    destination: Seq<u8>,
    authority: Seq<u8>,
    amount: u64,
) -> InstructionModel {
    InstructionModel {
        program_id: TOKEN_PROGRAM_ID@,
        accounts: seq![
            writable(source, false),
            writable(destination, false),
            readonly(authority, true),
        ],
        data: seq![3u8] + u64_le_bytes(amount),
    }
}

/// An issuance of new tokens of a mint to a token account, signed by the mint
/// authority. The data is the opcode 7, then the amount little-endian.
pub open spec fn mint_to_model(
    mint: Seq<u8>,
    account: Seq<u8>,
    authority: Seq<u8>,
    amount: u64,
) -> InstructionModel {
    InstructionModel {
        program_id: TOKEN_PROGRAM_ID@,
        accounts: seq![
            writable(mint, false),
            writable(account, false),
            readonly(authority, true),
        ],
        data: seq![7u8] + u64_le_bytes(amount),
    }
}

/// How the token program's wire format writes an optional address: a byte 1
/// and the address, or a byte 0.
pub open spec fn optional_address_bytes(address: Option<Seq<u8>>) -> Seq<u8> {
    match address {
        Some(bytes) => seq![1u8] + bytes,
        None => seq![0u8],
    }
}

/// The initialisation of a mint. The data is the opcode 0, the number of
/// decimals, the mint authority, and the optional freeze authority.
pub open spec fn initialize_mint_model(
    mint: Seq<u8>,
    mint_authority: Seq<u8>,
    freeze_authority: Option<Seq<u8>>,
    decimals: u8,
) -> InstructionModel {
    InstructionModel {
        program_id: TOKEN_PROGRAM_ID@,
        accounts: seq![writable(mint, false), readonly(RENT_SYSVAR_ID@, false)],
        data: seq![0u8, decimals] + mint_authority + optional_address_bytes(freeze_authority),
    }
}

/// An optional address taken as a sequence of bytes.
pub open spec fn optional_bytes(address: Option<[u8; 32]>) -> Option<Seq<u8>> {
    match address {
        Some(bytes) => Some(bytes@),
        None => None,
    }
}

#[verifier::external_type_specification]
#[verifier::external_body]
pub struct ExProgramError(solana_sdk::program_error::ProgramError);

/// `solana_sdk::system_instruction::transfer`. Trusted: the result is the
/// system program's transfer, with the two accounts and the data as that crate
/// builds them.
#[verifier::external_body]
fn system_transfer(from: &[u8; 32], to: &[u8; 32], lamports: u64) -> (ix: Instruction)
    ensures
        ix@ == system_transfer_model(from@, to@, lamports),
{
    let ix = solana_sdk::system_instruction::transfer(
        &Pubkey::new_from_array(*from), &Pubkey::new_from_array(*to), lamports,
    );
    let accounts = ix.accounts.iter().map(|m| AccountRef {
        address: m.pubkey.to_bytes(), is_signer: m.is_signer, is_writable: m.is_writable,
    }).collect();
    Instruction { program_id: ix.program_id.to_bytes(), accounts, data: ix.data }
}

/// `spl_token::instruction::transfer`, for the token program itself and with no
/// multisignature signers. Trusted: the call succeeds, since the only failure
/// of that function is another program id, and the result has the accounts and
/// data as that crate builds them.
#[verifier::external_body]
fn token_transfer(
    source: &[u8; 32],
    destination: &[u8; 32],
    authority: &[u8; 32],
    amount: u64,
) -> (r: Result<Instruction, solana_sdk::program_error::ProgramError>)
    ensures
        r is Ok,
        r->Ok_0@ == token_transfer_model(source@, destination@, authority@, amount),
{
    let ix = spl_token::instruction::transfer(
        &spl_token::ID, &Pubkey::new_from_array(*source), &Pubkey::new_from_array(*destination),
        &Pubkey::new_from_array(*authority), &[], amount,
    )?;
    let accounts = ix.accounts.iter().map(|m| AccountRef {
        address: m.pubkey.to_bytes(), is_signer: m.is_signer, is_writable: m.is_writable,
    }).collect();
    Ok(Instruction { program_id: ix.program_id.to_bytes(), accounts, data: ix.data })
}

/// `spl_token::instruction::mint_to`, for the token program itself and with no
/// multisignature signers. Trusted: the call succeeds, since the only failure
/// of that function is another program id, and the result has the accounts and
/// data as that crate builds them.
#[verifier::external_body]
fn token_mint_to(
    mint: &[u8; 32],
    account: &[u8; 32],
    authority: &[u8; 32],
    amount: u64,
) -> (r: Result<Instruction, solana_sdk::program_error::ProgramError>)
    ensures
        r is Ok,
        r->Ok_0@ == mint_to_model(mint@, account@, authority@, amount),
{
    let ix = spl_token::instruction::mint_to(
        &spl_token::ID, &Pubkey::new_from_array(*mint), &Pubkey::new_from_array(*account),
        &Pubkey::new_from_array(*authority), &[], amount,
    )?;
    let accounts = ix.accounts.iter().map(|m| AccountRef {
        address: m.pubkey.to_bytes(), is_signer: m.is_signer, is_writable: m.is_writable,
    }).collect();
    Ok(Instruction { program_id: ix.program_id.to_bytes(), accounts, data: ix.data })
}

/// `spl_token::instruction::initialize_mint`, for the token program itself.
/// Trusted: the call succeeds, since the only failure of that function is
/// another program id, and the result has the accounts and data as that crate
/// builds them.
#[verifier::external_body]
fn token_initialize_mint(
    mint: &[u8; 32],
    mint_authority: &[u8; 32],
    freeze_authority: Option<[u8; 32]>,
    decimals: u8,
) -> (r: Result<Instruction, solana_sdk::program_error::ProgramError>)
    ensures
        r is Ok,
        r->Ok_0@ == initialize_mint_model(
            mint@,
            mint_authority@,
            optional_bytes(freeze_authority),
            decimals,
        ),
{
    let freeze = freeze_authority.map(Pubkey::new_from_array);
    let ix = spl_token::instruction::initialize_mint(
        &spl_token::ID, &Pubkey::new_from_array(*mint), &Pubkey::new_from_array(*mint_authority),
        freeze.as_ref(), decimals,
    )?;
    let accounts = ix.accounts.iter().map(|m| AccountRef {
        address: m.pubkey.to_bytes(), is_signer: m.is_signer, is_writable: m.is_writable,
    }).collect();
    Ok(Instruction { program_id: ix.program_id.to_bytes(), accounts, data: ix.data })
}

/// The associated token account of a wallet for a mint: the program-derived
/// address that the associated-token-account program computes from the wallet,
/// the token program and the mint.
pub uninterp spec fn associated_token_address(wallet: Seq<u8>, mint: Seq<u8>) -> Seq<u8>;

/// Whether the derivation finds an address for this wallet and mint: whether
/// one of its bump seeds gives a point off the curve.
pub uninterp spec fn associated_token_address_exists(wallet: Seq<u8>, mint: Seq<u8>) -> bool;

/// The associated token account of a wallet for a mint, where there is one.
pub open spec fn derived_token_account(wallet: Seq<u8>, mint: Seq<u8>) -> Option<Seq<u8>> {
    if associated_token_address_exists(wallet, mint) {
        Some(associated_token_address(wallet, mint))
    } else {
        None
    }
}

/// `Pubkey::try_find_program_address`, with the seeds and the program id that
/// `spl_associated_token_account::get_associated_token_address` hands to
/// `Pubkey::find_program_address`. Trusted: the result says whether that
/// search finds an address.
#[verifier::external_body]
fn associated_token_address_found(wallet: &[u8; 32], mint: &[u8; 32]) -> (found: bool)
    ensures
        found == associated_token_address_exists(wallet@, mint@),
{
    let token_program = spl_token::id().to_bytes();
    let seeds: [&[u8]; 3] = [wallet, &token_program, mint];
    Pubkey::try_find_program_address(&seeds, &spl_associated_token_account::id()).is_some()
}

/// `spl_associated_token_account::get_associated_token_address`. Trusted: the
/// result is the derived address. That function panics where the search finds
/// no address, which the precondition excludes.
#[verifier::external_body]
fn associated_token_address_of(wallet: &[u8; 32], mint: &[u8; 32]) -> (address: [u8; 32])
    requires
        associated_token_address_exists(wallet@, mint@),
    ensures
        address@ == associated_token_address(wallet@, mint@),
{
    spl_associated_token_account::get_associated_token_address(
        &Pubkey::new_from_array(*wallet), &Pubkey::new_from_array(*mint),
    ).to_bytes()
}

/// Derives the associated token account of `wallet` for `mint`. The result is
/// `None` only where the derivation has no address to give.
pub fn derive_token_account(wallet: &[u8; 32], mint: &[u8; 32]) -> (r: Option<[u8; 32]>)
    ensures
        optional_bytes(r) == derived_token_account(wallet@, mint@),
{
    if associated_token_address_found(wallet, mint) {
        Some(associated_token_address_of(wallet, mint))
    } else {
        None
    }
}

/// The outcome of a builder with the instruction taken by its view.
pub open spec fn instruction_result(r: Result<Instruction, RequestError>) -> Result<
    InstructionModel,
    RequestError,
> {
    match r {
        Ok(instruction) => Ok(instruction@),
        Err(e) => Err(e),
    }
}

/// What `build_sol_transfer` returns: the transfer, unless nothing is moved.
pub open spec fn build_sol_transfer_spec(from: Seq<u8>, to: Seq<u8>, lamports: u64) -> Result<
    InstructionModel,
    RequestError,
> {
    if lamports == 0 {
        Err(RequestError::InvalidAmount)
    } else {
        Ok(system_transfer_model(from, to, lamports))
    }
}

/// What `build_mint_to` returns: the issuance, unless nothing is issued.
pub open spec fn build_mint_to_spec(
    mint: Seq<u8>,
    destination: Seq<u8>,
    authority: Seq<u8>,
    amount: u64,
) -> Result<InstructionModel, RequestError> {
    if amount == 0 {
        Err(RequestError::InvalidAmount)
    } else {
        Ok(mint_to_model(mint, destination, authority, amount))
    }
}

/// What `build_initialize_mint` returns: the freeze authority is the mint
/// authority.
pub open spec fn build_initialize_mint_spec(
    mint_authority: Seq<u8>,
    mint: Seq<u8>,
    decimals: u8,
) -> InstructionModel {
    initialize_mint_model(mint, mint_authority, Some(mint_authority), decimals)
}

/// What `build_token_transfer` returns. The amount is checked first; then each
/// wallet's associated token account is derived, the owner's before the
/// destination's, and a wallet with none is refused by its field.
pub open spec fn build_token_transfer_spec(
    mint: Seq<u8>,
    owner: Seq<u8>,
    destination: Seq<u8>,
    amount: u64,
) -> Result<InstructionModel, RequestError> {
    if amount == 0 {
        Err(RequestError::InvalidAmount)
    } else {
        match derived_token_account(owner, mint) {
            None => Err(RequestError::InvalidAddress(AddressField::Owner)),
            Some(source) => match derived_token_account(destination, mint) {
                None => Err(RequestError::InvalidAddress(AddressField::Destination)),
                Some(target) => Ok(token_transfer_model(source, target, owner, amount)),
            },
        }
    }
}

/// Builds the transfer of `lamports` from one account to another by the system
/// program. The sender signs; both accounts are written.
pub fn build_sol_transfer(from: &[u8; 32], to: &[u8; 32], lamports: u64) -> (r: Result<
    Instruction,
    RequestError,
>)
    ensures
        instruction_result(r) == build_sol_transfer_spec(from@, to@, lamports),
{
    if lamports == 0 {
        return Err(RequestError::InvalidAmount);
    }
    Ok(system_transfer(from, to, lamports))
}

/// Builds the issuance of `amount` new tokens of `mint` to the token account
/// `destination`, to be signed by the mint authority.
pub fn build_mint_to(
    mint: &[u8; 32],
    destination: &[u8; 32],
    authority: &[u8; 32],
    amount: u64,
) -> (r: Result<Instruction, RequestError>)
    ensures
        instruction_result(r) == build_mint_to_spec(mint@, destination@, authority@, amount),
{
    if amount == 0 {
        return Err(RequestError::InvalidAmount);
    }
    match token_mint_to(mint, destination, authority, amount) {
        Ok(instruction) => Ok(instruction),
        Err(_) => unreached(),
    }
}

/// Builds the initialisation of `mint` with the given number of decimals. The
/// mint authority becomes the freeze authority as well.
pub fn build_initialize_mint(mint_authority: &[u8; 32], mint: &[u8; 32], decimals: u8) -> (r:
    Instruction)
    ensures
        r@ == build_initialize_mint_spec(mint_authority@, mint@, decimals),
{
    match token_initialize_mint(mint, mint_authority, Some(*mint_authority), decimals) {
        Ok(instruction) => instruction,
        Err(_) => unreached(),
    }
}

/// Builds the transfer of `amount` tokens of `mint` from the owner's associated
/// token account to that of the destination wallet. Neither token account is
/// given: both are derived from the wallet and the mint.
pub fn build_token_transfer(
    mint: &[u8; 32],
    owner: &[u8; 32],
    destination: &[u8; 32],
    amount: u64,
) -> (r: Result<Instruction, RequestError>)
    ensures
        instruction_result(r) == build_token_transfer_spec(mint@, owner@, destination@, amount),
{
    if amount == 0 {
        return Err(RequestError::InvalidAmount);
    }
    let source = match derive_token_account(owner, mint) {
        Some(address) => address,
        None => { return Err(RequestError::InvalidAddress(AddressField::Owner)); },
    };
    let target = match derive_token_account(destination, mint) {
        Some(address) => address,
        None => { return Err(RequestError::InvalidAddress(AddressField::Destination)); },
    };
    match token_transfer(&source, &target, owner, amount) {
        Ok(instruction) => Ok(instruction),
        Err(_) => unreached(),
    }
}

/// Every token transfer that is built lists exactly three accounts, in this
/// order: the owner's associated token account, the destination wallet's
/// associated token account, and the owner. Both token accounts are writable
/// and do not sign; the owner signs and is only read.
pub proof fn lemma_token_transfer_order(
    mint: Seq<u8>,
    owner: Seq<u8>,
    destination: Seq<u8>,
    amount: u64,
)
    requires
        build_token_transfer_spec(mint, owner, destination, amount) is Ok,
    ensures
        ({
            let built = build_token_transfer_spec(mint, owner, destination, amount)->Ok_0;
            let accounts = built.accounts;
            &&& accounts.len() == 3
            &&& accounts[0] == AccountModel {
                address: associated_token_address(owner, mint),
                is_signer: false,
                is_writable: true,
            }
            &&& accounts[1] == AccountModel {
                address: associated_token_address(destination, mint),
                is_signer: false,
                is_writable: true,
            }
            &&& accounts[2] == AccountModel { address: owner, is_signer: true, is_writable: false }
        }),
{
}

/// A builder that moves value refuses an amount of zero, whatever the
/// addresses, and refuses nothing else for its amount.
pub proof fn lemma_zero_amount_refused(a: Seq<u8>, b: Seq<u8>, c: Seq<u8>, amount: u64)
    ensures
        amount == 0 <==> build_sol_transfer_spec(a, b, amount) == Err::<InstructionModel, _>(
            RequestError::InvalidAmount,
        ),
        amount == 0 <==> build_mint_to_spec(a, b, c, amount) == Err::<InstructionModel, _>(
            RequestError::InvalidAmount,
        ),
        amount == 0 <==> build_token_transfer_spec(a, b, c, amount) == Err::<InstructionModel, _>(
            RequestError::InvalidAmount,
        ),
        amount != 0 ==> build_sol_transfer_spec(a, b, amount) is Ok,
        amount != 0 ==> build_mint_to_spec(a, b, c, amount) is Ok,
{
}

} // verus!
