use vstd::prelude::*;
use vstd::bytes::spec_u64_from_le_bytes;
use anchor_lang::solana_program::program_pack::Pack;

use crate::pubkey::Pubkey;

verus! {

/// What the logic reads of an account handed to an instruction.
#[derive(Clone, Debug)]
pub struct AccountInfo {
    pub key: Pubkey,
    pub owner: Pubkey,
    pub lamports: u64,
    pub data: Vec<u8>,
}

/// The state of an SPL token account, stored as one byte.
#[derive(Clone, Copy, Debug, PartialEq, Eq, Structural)]
pub enum AccountState {
    Uninitialized,
    Initialized,
    Frozen,
}

/// The byte that stores a token account state.
pub open spec fn account_state_byte(s: AccountState) -> u8 {
    match s {
        AccountState::Uninitialized => 0u8,
        AccountState::Initialized => 1u8,
        AccountState::Frozen => 2u8,
    }
}

/// What the logic reads of an SPL token account.
#[derive(Clone, Copy, Debug)]
pub struct TokenAccount {
    pub mint: Pubkey,
    pub owner: Pubkey,
    pub amount: u64,
    pub state: AccountState,
}

/// What the logic reads of an SPL mint.
#[derive(Clone, Copy, Debug)]
pub struct Mint {
    pub supply: u64,
    pub decimals: u8,
    pub is_initialized: bool,
}

/// Whether an account's state says it has been initialized.
pub trait IsInitialized {
    spec fn initialized(&self) -> bool;

    fn is_initialized(&self) -> (r: bool)
        ensures
            r == self.initialized(),
    ;
}

impl IsInitialized for TokenAccount {
    open spec fn initialized(&self) -> bool {
        self.state != AccountState::Uninitialized
    }

    fn is_initialized(&self) -> (r: bool) {
        match self.state {
            AccountState::Uninitialized => false,
            _ => true,
        }
    }
}

impl IsInitialized for Mint {
    open spec fn initialized(&self) -> bool {
        self.is_initialized
    }

    fn is_initialized(&self) -> (r: bool) {
        self.is_initialized
    }
}

/// The four tag bytes of a packed `COption` that the token program accepts:
/// `[0, 0, 0, 0]` for none and `[1, 0, 0, 0]` for some.
pub open spec fn coption_tag_valid(tag: Seq<u8>) -> bool {
    tag == seq![0u8, 0, 0, 0] || tag == seq![1u8, 0, 0, 0]
}

/// The packed token account layout (165 bytes) that `spl_token::state::Account`
/// unpacks without error: valid tags for `delegate`, `is_native` and `close_authority`,
/// and a state byte of 0, 1 or 2.
pub open spec fn token_account_layout_valid(d: Seq<u8>) -> bool {
    &&& d.len() == 165
    &&& coption_tag_valid(d.subrange(72, 76))
    &&& d[108] <= 2
    &&& coption_tag_valid(d.subrange(109, 113))
    &&& coption_tag_valid(d.subrange(129, 133))
}

/// `a` holds the fields stored in the packed token account `d`.
pub open spec fn token_account_decodes(d: Seq<u8>, a: TokenAccount) -> bool {
    &&& a.mint.bytes@ == d.subrange(0, 32)
    &&& a.owner.bytes@ == d.subrange(32, 64)
    &&& a.amount == spec_u64_from_le_bytes(d.subrange(64, 72))
    &&& account_state_byte(a.state) == d[108]
}

/// The packed mint layout (82 bytes) that `spl_token::state::Mint` unpacks without
/// error: valid tags for both authorities and an `is_initialized` byte of 0 or 1.
pub open spec fn mint_layout_valid(d: Seq<u8>) -> bool {
    &&& d.len() == 82
    &&& coption_tag_valid(d.subrange(0, 4))
    &&& (d[45] == 0 || d[45] == 1)
    &&& coption_tag_valid(d.subrange(46, 50))
}

/// `m` holds the fields stored in the packed mint `d`.
pub open spec fn mint_decodes(d: Seq<u8>, m: Mint) -> bool {
    &&& m.supply == spec_u64_from_le_bytes(d.subrange(36, 44))
    &&& m.decimals == d[44]
    &&& m.is_initialized == (d[45] == 1)
}

/// Calls `<spl_token::state::Account as Pack>::unpack_unchecked`, which fails unless the
/// data is exactly 165 bytes in the token account layout, and hands back the mint, the
/// owner, the amount and the state byte.
#[verifier::external_body]
fn unpack_spl_token_account(data: &[u8]) -> (r: Option<([u8; 32], [u8; 32], u64, u8)>)
    ensures
        r is Some <==> token_account_layout_valid(data@),
        r matches Some(t) ==> {
            &&& t.0@ == data@.subrange(0, 32)
            &&& t.1@ == data@.subrange(32, 64)
            &&& t.2 == spec_u64_from_le_bytes(data@.subrange(64, 72))
            &&& t.3 == data@[108]
        },
{
    match anchor_spl::token::spl_token::state::Account::unpack_unchecked(data) {
        Ok(a) => Some((a.mint.to_bytes(), a.owner.to_bytes(), a.amount, a.state as u8)),
        Err(_) => None,
    }
}

/// Calls `<spl_token::state::Mint as Pack>::unpack_unchecked`, which fails unless the
/// data is exactly 82 bytes in the mint layout, and hands back the supply, the
/// decimals and the initialized flag.
#[verifier::external_body]
fn unpack_spl_mint(data: &[u8]) -> (r: Option<(u64, u8, bool)>)
    ensures
        r is Some <==> mint_layout_valid(data@),
        r matches Some(t) ==> {
            &&& t.0 == spec_u64_from_le_bytes(data@.subrange(36, 44))
            &&& t.1 == data@[44]
            &&& t.2 == (data@[45] == 1)
        },
{
    match anchor_spl::token::spl_token::state::Mint::unpack_unchecked(data) {
        Ok(m) => Some((m.supply, m.decimals, m.is_initialized)),
        Err(_) => None,
    }
}

/// Unpacks a token account from its data, without checking that it is initialized.
pub fn unpack_token_account(data: &[u8]) -> (r: Option<TokenAccount>)
    ensures
        r is Some <==> token_account_layout_valid(data@),
        r matches Some(a) ==> token_account_decodes(data@, a),
{
    match unpack_spl_token_account(data) {
        Some((mint, owner, amount, state_byte)) => {
            let state = if state_byte == 0 {
                AccountState::Uninitialized
            } else if state_byte == 1 {
                AccountState::Initialized
            } else {
                AccountState::Frozen
            };
            Some(TokenAccount { mint: Pubkey { bytes: mint }, owner: Pubkey { bytes: owner }, amount, state })
        },
        None => None,
    }
}

/// Unpacks a mint from its data, without checking that it is initialized.
pub fn unpack_mint(data: &[u8]) -> (r: Option<Mint>)
    ensures
        r is Some <==> mint_layout_valid(data@),
        r matches Some(m) ==> mint_decodes(data@, m),
{
    match unpack_spl_mint(data) {
        Some((supply, decimals, is_initialized)) => Some(Mint { supply, decimals, is_initialized }),
        None => None,
    }
}

} // verus!
