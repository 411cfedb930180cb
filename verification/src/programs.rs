use vstd::prelude::*;
use crate::pubkey::Pubkey;

verus! {

/// The derivation of the associated token account of `wallet` for `mint`
/// under `token_program`: the program-derived address of the associated token
/// account program for the seeds (wallet, token program, mint), or none when
/// no bump seed gives an off-curve address. A function of its arguments alone.
pub uninterp spec fn derived_associated_token_address(wallet: Pubkey, mint: Pubkey, token_program: Pubkey) -> Option<Pubkey>;

/// Whether the associated token account address of `wallet` for `mint` under
/// `token_program` can be derived (practically always).
pub open spec fn associated_token_address_found(wallet: Pubkey, mint: Pubkey, token_program: Pubkey) -> bool {
    derived_associated_token_address(wallet, mint, token_program) is Some
}

/// The associated token account address of `wallet` for `mint` under
/// `token_program` (meaningful where it can be derived).
pub open spec fn associated_token_address(wallet: Pubkey, mint: Pubkey, token_program: Pubkey) -> Pubkey {
    derived_associated_token_address(wallet, mint, token_program).unwrap()
}

/// Derives an associated token account address with
/// `Pubkey::try_find_program_address` over the seeds (wallet, token program,
/// mint) and the associated token account program id: the seed layout of
/// `spl_associated_token_account_client::address::get_associated_token_address_with_program_id`,
/// whose own call panics where this one gives `None`. Claimed: the outcome,
/// found or not and which address, depends on the three addresses alone.
#[verifier::external_body]
pub fn get_associated_token_address_with_program_id(wallet: &Pubkey, mint: &Pubkey, token_program: &Pubkey) -> (r: Option<Pubkey>)
    ensures
        r == derived_associated_token_address(*wallet, *mint, *token_program),
{
    let found = anchor_lang::prelude::Pubkey::try_find_program_address(
        &[&wallet.to_bytes(), &token_program.to_bytes(), &mint.to_bytes()],
        &anchor_spl::associated_token::ID,
    );
    match found {
        Some((address, _bump)) => Some(Pubkey::from_bytes(address.to_bytes())),
        None => None,
    }
}

/// `anchor_spl::token::ID`, the SPL token program
/// (`TokenkegQfeZyiNwAJbNbGKPFXCWuBvf9Ss623VQ5DA`). Claimed: these are its bytes.
#[verifier::external_body]
pub fn token_program_id() -> (r: Pubkey)
    ensures
        r == (Pubkey { w0: 0x93a165d7e1f6dd06, w1: 0xac79ebce46e1cbd9, w2: 0x91375b5fed85b41c, w3: 0xa900ff7e85f58c3a }),
{
    Pubkey::from_bytes(anchor_spl::token::ID.to_bytes())
}

/// `anchor_spl::token_2022::ID`, the token-2022 program
/// (`TokenzQdBNbLqP5VEhdkAS6EPFLC1PHnBqCXEpPxuEb`). Claimed: these are its bytes.
#[verifier::external_body]
pub fn token_2022_program_id() -> (r: Pubkey)
    ensures
        r == (Pubkey { w0: 0xde8f75eee1f6dd06, w1: 0xdacd6ce4bc5d4218, w2: 0x270db9834dfc1ab6, w3: 0xfc8ba1d828f9bdfe }),
{
    Pubkey::from_bytes(anchor_spl::token_2022::ID.to_bytes())
}

/// `anchor_spl::associated_token::ID`, the associated token account program
/// (`ATokenGPvbdGVxr1b2hvZbsiqW5xWH25efTNsLJA8knL`). Claimed: these are its bytes.
#[verifier::external_body]
pub fn associated_token_program_id() -> (r: Pubkey)
    ensures
        r == (Pubkey { w0: 0xf189244e8f25978c, w1: 0x830d8e1429103dbb, w2: 0x8410ffda99135a0b, w3: 0x59f8e9dbd87b8e04 }),
{
    Pubkey::from_bytes(anchor_spl::associated_token::ID.to_bytes())
}

/// `anchor_lang::system_program::ID` (`11111111111111111111111111111111`).
/// Claimed: it is the all-zero address.
#[verifier::external_body]
pub fn system_program_id() -> (r: Pubkey)
    ensures
        r == Pubkey::spec_zero(),
{
    Pubkey::from_bytes(anchor_lang::system_program::ID.to_bytes())
}

/// `solana_program::native_token::LAMPORTS_PER_SOL`, as `anchor_lang` re-exports it.
/// Claimed: one SOL is a billion lamports.
#[verifier::external_body]
pub fn lamports_per_sol() -> (r: u64)
    ensures
        r == 1_000_000_000,
{
    anchor_lang::solana_program::native_token::LAMPORTS_PER_SOL
}

} // verus!
