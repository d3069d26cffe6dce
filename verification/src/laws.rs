use vstd::prelude::*;
use vstd::bytes::spec_u64_from_le_bytes;
use vstd::utf8::{encode_scalar, encode_utf8};

use crate::constants::BASIS_POINT;
use crate::errors::LandLordErrors;
use crate::assertions::ata_check_error;
use crate::instructions::actions::FeePayment;
use crate::instructions::claim_dividend::{claim_error, claimable_amount, treasury_authority_address};
use crate::instructions::create_distribute_dividend::create_checkpoint_error;
use crate::instructions::issue_nft::{issue_error, issue_fee};
use crate::instructions::new_platform::payment_token_error;
use crate::pubkey::token_program_id_bytes;
use crate::state::platform_governor::PlatformGovernor;
use crate::token::{mint_layout_valid, token_account_layout_valid};
use crate::pubkey::Pubkey;
use crate::state::asset_basket::{fractionalize_error, AssetBasket, AssetTokenization};
use crate::state::dividend_claimed::DividendClaimedDetails;
use crate::state::dividend_distributor::DividendDistributor;
use crate::state::platform_governor::padded_symbol;
use crate::state::setting::reserve_factor_error;
use crate::token::{AccountInfo, Mint, TokenAccount};

verus! {

/// A claim record that has paid out a non-zero share refuses every later claim:
/// after a successful claim of `amount > 0`, claiming again from the updated
/// distributor with the updated record is refused, whatever share it would pay.
pub proof fn claim_record_pays_once(
    distributor: DividendDistributor,
    amount: u64,
    claimer: Pubkey,
    claimer_token_account: TokenAccount,
    treasury_info: AccountInfo,
    treasury_token_account: TokenAccount,
    treasury_authority: Pubkey,
    claimed: DividendClaimedDetails,
    now: i64,
    next_amount: u64,
)
    requires
        claim_error(distributor, amount, claimer, claimer_token_account, treasury_info, treasury_token_account, treasury_authority, claimed) is None,
        amount > 0,
    ensures
        ({
            let distributor2 = DividendDistributor {
                total_claimed: (distributor.total_claimed + amount) as u64,
                ..distributor
            };
            let claimed2 = DividendClaimedDetails {
                checkpoint_id: distributor.id,
                claimer,
                token_mint: distributor.token_mint,
                total_claimed: amount,
                last_claim_epoch: now,
            };
            claim_error(distributor2, next_amount, claimer, claimer_token_account, treasury_info, treasury_token_account, treasury_authority, claimed2) is Some
        }),
{
}

/// The sum of a sequence of locked amounts.
pub open spec fn total_locked(locked: Seq<u64>) -> int
    decreases locked.len(),
{
    if locked.len() == 0 {
        0
    } else {
        total_locked(locked.drop_last()) + locked.last()
    }
}

/// The sum of the shares of a dividend of `total` that escrows with these locked
/// amounts can claim from a locker whose supply is `supply`.
pub open spec fn total_shares(total: u64, locked: Seq<u64>, supply: u64) -> int
    decreases locked.len(),
{
    if locked.len() == 0 {
        0
    } else {
        total_shares(total, locked.drop_last(), supply) + claimable_amount(total, locked.last(), supply)
    }
}

proof fn lemma_share_bound(total: u64, l: u64, supply: u64)
    requires
        0 < supply,
        l <= supply,
    ensures
        claimable_amount(total, l, supply) == (total as int * l as int) / supply as int,
        supply as int * claimable_amount(total, l, supply) <= total as int * l as int,
{
    let x = total as int * l as int;
    let q = x / supply as int;
    assert(0 <= x <= total as int * supply as int) by (nonlinear_arith)
        requires
            x == total as int * l as int,
            0 <= l <= supply,
            0 <= total,
    ;
    vstd::arithmetic::div_mod::lemma_fundamental_div_mod(x, supply as int);
    assert(0 <= q <= total) by (nonlinear_arith)
        requires
            q == x / supply as int,
            0 <= x <= total as int * supply as int,
            supply > 0,
    ;
    assert(supply as int * q <= x) by (nonlinear_arith)
        requires
            q == x / supply as int,
            0 <= x,
            supply > 0,
    ;
}

proof fn lemma_shares_scaled(total: u64, locked: Seq<u64>, supply: u64)
    requires
        0 < supply,
        total_locked(locked) <= supply,
    ensures
        0 <= total_locked(locked),
        supply as int * total_shares(total, locked, supply) <= total as int * total_locked(locked),
    decreases locked.len(),
{
    if locked.len() > 0 {
        let rest = locked.drop_last();
        let l = locked.last();
        lemma_total_locked_nonneg(rest);
        lemma_shares_scaled(total, rest, supply);
        lemma_share_bound(total, l, supply);
        let a = total_shares(total, rest, supply);
        let c = claimable_amount(total, l, supply) as int;
        let b = total_locked(rest);
        assert(supply as int * (a + c) <= total as int * (b + l as int)) by (nonlinear_arith)
            requires
                supply as int * a <= total as int * b,
                supply as int * c <= total as int * l as int,
        ;
    }
}

proof fn lemma_total_locked_nonneg(locked: Seq<u64>)
    ensures
        0 <= total_locked(locked),
    decreases locked.len(),
{
    if locked.len() > 0 {
        lemma_total_locked_nonneg(locked.drop_last());
    }
}

/// Shares never add up to more than the dividend: when the escrows' locked amounts
/// add up to the locker's supply, the shares they can claim add up to at most the
/// distributed amount.
pub proof fn shares_within_distribution(total: u64, locked: Seq<u64>, supply: u64)
    requires
        0 < supply,
        total_locked(locked) == supply,
    ensures
        total_shares(total, locked, supply) <= total,
{
    lemma_shares_scaled(total, locked, supply);
    let s = total_shares(total, locked, supply);
    assert(s <= total) by (nonlinear_arith)
        requires
            supply as int * s <= total as int * supply as int,
            supply > 0,
    ;
}

proof fn lemma_total_locked_update(locked: Seq<u64>, i: int, v: u64)
    requires
        0 <= i < locked.len(),
    ensures
        total_locked(locked.update(i, v)) == total_locked(locked) - locked[i] + v,
        0 <= locked[i] <= total_locked(locked),
    decreases locked.len(),
{
    lemma_total_locked_nonneg(locked.drop_last());
    if i < locked.len() - 1 {
        lemma_total_locked_update(locked.drop_last(), i, v);
        assert(locked.update(i, v).drop_last() =~= locked.drop_last().update(i, v));
    } else {
        assert(locked.update(i, v).drop_last() =~= locked.drop_last());
    }
}

proof fn lemma_total_locked_remove(locked: Seq<u64>, i: int)
    requires
        0 <= i < locked.len(),
    ensures
        total_locked(locked.remove(i)) == total_locked(locked) - locked[i],
    decreases locked.len(),
{
    if i < locked.len() - 1 {
        lemma_total_locked_remove(locked.drop_last(), i);
        assert(locked.remove(i).drop_last() =~= locked.drop_last().remove(i));
        assert(locked.remove(i).last() == locked.last());
    } else {
        assert(locked.remove(i) =~= locked.drop_last());
    }
}

/// Locking keeps a locker's supply equal to what its escrows hold: if the supply is
/// the sum of the escrows' locked amounts, then after locking `amount` into escrow `i`
/// (which adds `amount` to both) it still is.
pub proof fn lock_keeps_supply_equal_to_escrows(locked: Seq<u64>, i: int, amount: u64, supply: u64)
    requires
        0 <= i < locked.len(),
        supply == total_locked(locked),
        locked[i] + amount <= u64::MAX,
        supply + amount <= u64::MAX,
    ensures
        supply + amount == total_locked(locked.update(i, (locked[i] + amount) as u64)),
{
    lemma_total_locked_update(locked, i, (locked[i] + amount) as u64);
}

/// Exiting keeps a locker's supply equal to what its escrows hold: if the supply is
/// the sum of the escrows' locked amounts, then escrow `i` never holds more than the
/// supply (so exiting it never runs the supply below zero), and after it leaves the
/// supply is the sum of what the other escrows hold.
pub proof fn exit_keeps_supply_equal_to_escrows(locked: Seq<u64>, i: int, supply: u64)
    requires
        0 <= i < locked.len(),
        supply == total_locked(locked),
    ensures
        locked[i] <= supply,
        supply - locked[i] == total_locked(locked.remove(i)),
{
    lemma_total_locked_update(locked, i, locked[i]);
    lemma_total_locked_remove(locked, i);
}

/// Settings are accepted exactly when both reserve factors are positive, the minimum
/// is at most the maximum, and the maximum is at most one hundred percent.
pub proof fn reserve_factors_accepted_iff(min_reserve_factor: u16, max_reserve_factor: u16)
    ensures
        reserve_factor_error(min_reserve_factor, max_reserve_factor) is None
            <==> 0 < min_reserve_factor <= max_reserve_factor <= BASIS_POINT,
{
}

proof fn lemma_encode_utf8_concat(a: Seq<char>, b: Seq<char>)
    ensures
        encode_utf8(a + b) == encode_utf8(a) + encode_utf8(b),
    decreases a.len(),
{
    if a.len() == 0 {
        assert(a + b =~= b);
        assert(encode_utf8(a) + encode_utf8(b) =~= encode_utf8(b));
    } else {
        lemma_encode_utf8_concat(a.drop_first(), b);
        assert((a + b).drop_first() =~= a.drop_first() + b);
        assert((a + b)[0] == a[0]);
        assert(encode_utf8(a + b) =~= encode_utf8(a) + encode_utf8(b));
    }
}

proof fn lemma_encode_nuls(k: nat)
    ensures
        encode_utf8(Seq::new(k, |i: int| '\0')).len() == k,
    decreases k,
{
    if k > 0 {
        let s = Seq::new(k, |i: int| '\0');
        assert(s.drop_first() =~= Seq::new((k - 1) as nat, |i: int| '\0'));
        lemma_encode_nuls((k - 1) as nat);
        assert(encode_scalar(s[0] as u32).len() == 1);
    }
}

/// The stored symbol always takes exactly the metadata symbol length: padding a
/// symbol of at most 10 bytes with NUL characters gives exactly 10 bytes.
pub proof fn padded_symbol_fills_max_length(symbol: Seq<char>)
    requires
        encode_utf8(symbol).len() <= 10,
    ensures
        encode_utf8(padded_symbol(symbol, 10)).len() == 10,
{
    let k = (10 - encode_utf8(symbol).len()) as nat;
    lemma_encode_utf8_concat(symbol, Seq::new(k, |i: int| '\0'));
    lemma_encode_nuls(k);
}

/// An asset is fractionalized at most once: once `AssetBasket::fractionalize` has
/// succeeded, it refuses every later mint as already fractionalized.
pub proof fn fractionalized_once(basket: AssetBasket, mint: Mint, mint_key: Pubkey, total_supply: u64, now: i64, next_mint: Mint)
    requires
        fractionalize_error(basket, mint) is None,
    ensures
        fractionalize_error(
            AssetBasket {
                asset_tokenize: AssetTokenization { token_mint: mint_key, tokenized: true, tokenized_at: now, total_supply },
                ..basket
            },
            next_mint,
        ) == Some(LandLordErrors::NFTIsAlreadyFractionalized),
{
}

/// A claim is refused as exceeding the distribution only when it would take the
/// claimed total strictly past the distributed amount; and a claim that fits, with
/// valid token accounts, an unused claim record and the treasury at its associated
/// token address, is accepted (including one that uses up exactly what is left).
pub proof fn claim_fits_exactly_up_to_the_distribution(
    distributor: DividendDistributor,
    amount: u64,
    claimer: Pubkey,
    claimer_token_account: TokenAccount,
    treasury_info: AccountInfo,
    treasury_token_account: TokenAccount,
    treasury_authority: Pubkey,
    claimed: DividendClaimedDetails,
)
    ensures
        claim_error(distributor, amount, claimer, claimer_token_account, treasury_info, treasury_token_account, treasury_authority, claimed)
            == Some(LandLordErrors::ExceedsTotalDistributionAmount)
            ==> distributor.total_claimed + amount > distributor.total_distribute_amount,
        ({
            &&& claimer_token_account.mint@ == distributor.token_mint@
            &&& claimer_token_account.owner@ == claimer@
            &&& treasury_token_account.mint@ == distributor.token_mint@
            &&& treasury_token_account.owner@ == treasury_authority@
            &&& claimed.total_claimed == 0
            &&& distributor.total_claimed + amount <= distributor.total_distribute_amount
            &&& treasury_authority_address() is Some
            &&& ata_check_error(treasury_info, treasury_authority_address()->Some_0.0, distributor.token_mint) is None
        }) ==> claim_error(distributor, amount, claimer, claimer_token_account, treasury_info, treasury_token_account, treasury_authority, claimed) is None,
{
}

/// An escrow that holds the whole locked supply is owed the whole distributed amount.
pub proof fn whole_supply_earns_whole_distribution(total: u64, supply: u64)
    requires
        supply > 0,
    ensures
        claimable_amount(total, supply, supply) == total,
{
    assert((total as int * supply as int) / supply as int == total as int) by (nonlinear_arith)
        requires
            supply > 0,
    ;
}

/// The protocol fee is always the governor's price, whatever the payer holds: a token
/// fee moves exactly `minting_protocol_price` tokens from the payer to the treasury,
/// and a lamport fee moves exactly that many lamports.
pub proof fn fee_is_the_protocol_price(
    governor: PlatformGovernor,
    owner: AccountInfo,
    treasury: Pubkey,
    remaining_accounts: Seq<AccountInfo>,
)
    ensures
        issue_fee(governor, owner, treasury, remaining_accounts) matches FeePayment::Tokens { transfer } ==> {
            &&& transfer.amount == governor.minting_protocol_price
            &&& transfer.destination == treasury
            &&& transfer.authority == owner.key
        },
        issue_fee(governor, owner, treasury, remaining_accounts) matches FeePayment::Lamports { from, to, amount } ==> {
            &&& amount == governor.minting_protocol_price
            &&& from == owner.key
            &&& to == treasury
        },
{
}

/// Fractionalizing an untokenized basket with a mint that has no supply yet succeeds
/// for every nonzero number of decimals; only zero decimals are refused as such.
pub proof fn fractionalize_accepts_any_nonzero_decimals(basket: AssetBasket, mint: Mint)
    ensures
        !basket.asset_tokenize.tokenized && mint.supply == 0 && mint.decimals != 0 ==> fractionalize_error(basket, mint) is None,
        fractionalize_error(basket, mint) == Some(LandLordErrors::FractionalTokenZeroDecimals) ==> mint.decimals == 0,
        fractionalize_error(basket, mint) == Some(LandLordErrors::FractionalTokenSupplyNotPure) ==> mint.supply > 0,
        fractionalize_error(basket, mint) == Some(LandLordErrors::NFTIsAlreadyFractionalized) ==> basket.asset_tokenize.tokenized,
{
}

/// Whether a payment token is accepted does not depend on the mint's supply: two mint
/// accounts that differ only in their supply bytes get the same answer.
pub proof fn payment_token_ignores_supply(remaining1: Seq<AccountInfo>, remaining2: Seq<AccountInfo>, treasury: AccountInfo)
    requires
        remaining1.len() > 0,
        remaining2.len() > 0,
        remaining1[0].key@ == remaining2[0].key@,
        remaining1[0].owner@ == remaining2[0].owner@,
        remaining1[0].data@.len() == remaining2[0].data@.len(),
        forall|i: int| 0 <= i < remaining1[0].data@.len() && !(36 <= i < 44)
            ==> remaining1[0].data@[i] == remaining2[0].data@[i],
    ensures
        payment_token_error(remaining1, treasury) == payment_token_error(remaining2, treasury),
{
    let d1 = remaining1[0].data@;
    let d2 = remaining2[0].data@;
    if d1.len() == 82 {
        assert(d1.subrange(0, 4) =~= d2.subrange(0, 4));
        assert(d1.subrange(46, 50) =~= d2.subrange(46, 50));
        assert(d1[45] == d2[45]);
    }
}

/// An initialized mint owned by the token program is accepted as the payment token,
/// whatever its supply, when the treasury is an initialized token account of that
/// mint owned by the token program.
pub proof fn payment_token_accepted_whatever_supply(remaining: Seq<AccountInfo>, treasury: AccountInfo)
    requires
        remaining.len() > 0,
        mint_layout_valid(remaining[0].data@),
        remaining[0].data@[45] == 1,
        remaining[0].owner@ == token_program_id_bytes(),
        token_account_layout_valid(treasury.data@),
        treasury.data@[108] != 0,
        treasury.owner@ == token_program_id_bytes(),
        treasury.data@.subrange(0, 32) == remaining[0].key@,
    ensures
        payment_token_error(remaining, treasury) is None,
{
}

/// Whether creating a dividend checkpoint is refused depends on the treasury token
/// account only through its mint, never through its balance; and with matching
/// token accounts and the treasury at its associated token address, creation succeeds.
pub proof fn checkpoint_ignores_treasury_balance(
    owner: Pubkey,
    mint: Pubkey,
    owner_token_account: TokenAccount,
    treasury_info: AccountInfo,
    treasury_token_account1: TokenAccount,
    treasury_token_account2: TokenAccount,
)
    requires
        treasury_token_account1.mint@ == treasury_token_account2.mint@,
    ensures
        create_checkpoint_error(owner, mint, owner_token_account, treasury_info, treasury_token_account1)
            == create_checkpoint_error(owner, mint, owner_token_account, treasury_info, treasury_token_account2),
        ({
            &&& owner_token_account.mint@ == mint@
            &&& owner_token_account.owner@ == owner@
            &&& treasury_token_account1.mint@ == mint@
            &&& treasury_authority_address() is Some
            &&& ata_check_error(treasury_info, treasury_authority_address()->Some_0.0, mint) is None
        }) ==> create_checkpoint_error(owner, mint, owner_token_account, treasury_info, treasury_token_account1) is None,
{
}

/// An escrow's share is its proportional part of the distribution rounded down: for
/// an escrow holding at most the locked supply, `share * supply <= total * locked`
/// and `total * locked < (share + 1) * supply`, and the share never exceeds the total.
pub proof fn share_is_proportional_rounded_down(total: u64, locked: u64, supply: u64)
    requires
        supply > 0,
        locked <= supply,
    ensures
        claimable_amount(total, locked, supply) <= total,
        (claimable_amount(total, locked, supply) as int) * (supply as int) <= (total as int) * (locked as int),
        (total as int) * (locked as int) < (claimable_amount(total, locked, supply) as int + 1) * (supply as int),
{
    let t = total as int;
    let l = locked as int;
    let s = supply as int;
    let q = (t * l) / s;
    assert(t * l <= t * s) by (nonlinear_arith)
        requires
            0 <= t,
            0 <= l <= s,
    ;
    assert(q <= t) by (nonlinear_arith)
        requires
            q == (t * l) / s,
            s > 0,
            0 <= t * l <= t * s,
    ;
    assert(q * s <= t * l && t * l < (q + 1) * s) by (nonlinear_arith)
        requires
            q == (t * l) / s,
            s > 0,
            t * l >= 0,
    ;
}

/// Each refusal of a claim has its cause: a mint mismatch means one of the token
/// accounts holds another mint, an owner mismatch that one belongs to someone else,
/// and a claim already made that the record has paid something.
pub proof fn claim_refused_only_for_cause(
    distributor: DividendDistributor,
    amount: u64,
    claimer: Pubkey,
    claimer_token_account: TokenAccount,
    treasury_info: AccountInfo,
    treasury_token_account: TokenAccount,
    treasury_authority: Pubkey,
    claimed: DividendClaimedDetails,
)
    ensures
        ({
            let e = claim_error(distributor, amount, claimer, claimer_token_account, treasury_info, treasury_token_account, treasury_authority, claimed);
            &&& e == Some(LandLordErrors::TokenAccountMintMismatched)
                ==> claimer_token_account.mint@ != distributor.token_mint@ || treasury_token_account.mint@ != distributor.token_mint@
            &&& e == Some(LandLordErrors::TokenAccountOwnerMismatched)
                ==> claimer_token_account.owner@ != claimer@ || treasury_token_account.owner@ != treasury_authority@
            &&& e == Some(LandLordErrors::DividendAlreadyClaimed) ==> claimed.total_claimed != 0
            &&& e == Some(LandLordErrors::TokenTreasuryPDANotFound) ==> treasury_authority_address() is None
        }),
{
}

/// Issuing is refused for want of funds only when the payer really holds less than
/// the price; and a mutable governor accepts an issuer who can pay: with a payment
/// token, an associated token account holding at least the price; without one, at
/// least the price in lamports. The fee's kind follows the governor: tokens from the
/// given account when it names a payment token, lamports from the owner otherwise.
pub proof fn issue_refused_only_for_want_of_funds(
    governor: PlatformGovernor,
    owner: AccountInfo,
    mint: Pubkey,
    treasury: Pubkey,
    remaining_accounts: Seq<AccountInfo>,
)
    ensures
        issue_error(governor, owner, mint, remaining_accounts) == Some(LandLordErrors::ImmutableGovernor) ==> !governor.is_mutable,
        issue_error(governor, owner, mint, remaining_accounts) == Some(LandLordErrors::NotEnoughTokens) ==> {
            &&& governor.minting_protocol_token is Some
            &&& remaining_accounts.len() > 0
            &&& spec_u64_from_le_bytes(remaining_accounts[0].data@.subrange(64, 72)) < governor.minting_protocol_price
        },
        issue_error(governor, owner, mint, remaining_accounts) == Some(LandLordErrors::NotEnoughSOL) ==> {
            &&& governor.minting_protocol_token is None
            &&& owner.lamports < governor.minting_protocol_price
        },
        governor.is_mutable && governor.minting_protocol_token is Some && remaining_accounts.len() > 0
            && ata_check_error(remaining_accounts[0], owner.key, mint) is None
            && spec_u64_from_le_bytes(remaining_accounts[0].data@.subrange(64, 72)) >= governor.minting_protocol_price
            ==> issue_error(governor, owner, mint, remaining_accounts) is None,
        governor.is_mutable && governor.minting_protocol_token is None && owner.lamports >= governor.minting_protocol_price
            ==> issue_error(governor, owner, mint, remaining_accounts) is None,
        governor.minting_protocol_token is Some && remaining_accounts.len() > 0
            ==> (issue_fee(governor, owner, treasury, remaining_accounts) matches FeePayment::Tokens { transfer }
            && transfer.source == remaining_accounts[0].key),
        governor.minting_protocol_token is None
            ==> issue_fee(governor, owner, treasury, remaining_accounts) is Lamports,
{
}

/// Without a payment-token account the platform takes no payment token and refuses
/// nothing on its account; a refusal as uninitialized means the mint or the treasury
/// token account is not initialized.
pub proof fn payment_token_optional(remaining: Seq<AccountInfo>, treasury: AccountInfo)
    ensures
        remaining.len() == 0 ==> payment_token_error(remaining, treasury) is None,
        payment_token_error(remaining, treasury) == Some(LandLordErrors::AccountNotInitialized)
            ==> remaining[0].data@[45] != 1 || treasury.data@[108] == 0,
{
}

/// Each refusal to create a checkpoint has its cause: a mint mismatch means the
/// owner's or the treasury's token account holds another mint, an owner mismatch
/// that the owner's token account belongs to someone else.
pub proof fn checkpoint_refused_only_for_cause(
    owner: Pubkey,
    mint: Pubkey,
    owner_token_account: TokenAccount,
    treasury_info: AccountInfo,
    treasury_token_account: TokenAccount,
)
    ensures
        create_checkpoint_error(owner, mint, owner_token_account, treasury_info, treasury_token_account)
            == Some(LandLordErrors::TokenAccountMintMismatched)
            ==> owner_token_account.mint@ != mint@ || treasury_token_account.mint@ != mint@,
        create_checkpoint_error(owner, mint, owner_token_account, treasury_info, treasury_token_account)
            == Some(LandLordErrors::TokenAccountOwnerMismatched)
            ==> owner_token_account.owner@ != owner@,
{
}

} // verus!
