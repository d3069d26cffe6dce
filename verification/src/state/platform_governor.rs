use vstd::prelude::*;
use vstd::utf8::encode_utf8;

use crate::constants::{
    BOOL_LENGTH, DISCRIMINATOR_LENGTH, MAX_TOPIC_LENGTH, PUBLIC_KEY_LENGTH, U128_LENGTH,
    VEC_LENGTH_PREFIX,
};
use crate::errors::LandLordErrors;
use crate::pubkey::Pubkey;

verus! {

/// Reads `mpl_token_metadata::state::MAX_SYMBOL_LENGTH`, the most bytes a token
/// symbol may take in metadata; the crate defines it as 10.
#[verifier::external_body]
pub(crate) fn max_symbol_length() -> (n: usize)
    ensures
        n == 10,
{
    mpl_token_metadata::state::MAX_SYMBOL_LENGTH
}

/// The platform's governing account.
#[derive(Clone, Debug)]
pub struct PlatformGovernor {
    /// The symbol for the asset
    pub symbol: String,
    pub is_mutable: bool,
    pub total_dividend_checkpoint: u64,
    pub total_assets_minted: u64,
    pub total_assets_burned: u64,
    pub minting_protocol_price: u64,
    pub minting_protocol_token: Option<Pubkey>,
    pub big_guardian: Pubkey,
    pub treasury: Pubkey,
    pub setting: Pubkey,
}

/// `symbol` followed by as many NUL characters as it takes to fill `max_len` bytes.
pub open spec fn padded_symbol(symbol: Seq<char>, max_len: nat) -> Seq<char> {
    symbol + Seq::new((max_len - encode_utf8(symbol).len()) as nat, |i: int| '\0')
}

impl PlatformGovernor {
    pub const LEN: usize = DISCRIMINATOR_LENGTH + BOOL_LENGTH + U128_LENGTH + U128_LENGTH
        + PUBLIC_KEY_LENGTH + VEC_LENGTH_PREFIX + 3 * PUBLIC_KEY_LENGTH + VEC_LENGTH_PREFIX
        + MAX_TOPIC_LENGTH;

    /// Sets the governor up: mutable, with the given price, payment token, treasury,
    /// guardian and settings, its counters at zero, and the symbol padded with NUL
    /// characters to the metadata symbol length.
    pub fn init(
        &mut self,
        minting_protocol_price: u64,
        minting_protocol_token: Option<Pubkey>,
        symbol: String,
        treasury: Pubkey,
        big_guardian: Pubkey,
        setting: Pubkey,
    ) -> (r: Result<(), LandLordErrors>)
        requires
            encode_utf8(symbol@).len() <= 10,
        ensures
            r is Ok,
            final(self).symbol@ == padded_symbol(symbol@, 10),
            final(self).is_mutable,
            final(self).minting_protocol_token == minting_protocol_token,
            final(self).minting_protocol_price == minting_protocol_price,
            final(self).treasury == treasury,
            final(self).big_guardian == big_guardian,
            final(self).setting == setting,
            final(self).total_assets_minted == 0,
            final(self).total_assets_burned == 0,
            final(self).total_dividend_checkpoint == 0,
    {
        self.is_mutable = true;
        self.minting_protocol_token = minting_protocol_token;
        self.minting_protocol_price = minting_protocol_price;
        self.treasury = treasury;

        let pad = max_symbol_length() - symbol.as_str().len();
        let mut new_symbol = symbol.clone();
        let nul = "\0";
        proof {
            reveal_strlit("\0");
        }
        let mut i: usize = 0;
        while i < pad
            invariant
                i <= pad,
                nul@ == seq!['\0'],
                new_symbol@ == symbol@ + Seq::new(i as nat, |j: int| '\0'),
            decreases pad - i,
        {
            new_symbol.append(nul);
            i = i + 1;
            assert(new_symbol@ =~= symbol@ + Seq::new(i as nat, |j: int| '\0'));
        }
        self.symbol = new_symbol;
        self.big_guardian = big_guardian;
        self.setting = setting;
        self.total_assets_minted = 0;
        self.total_assets_burned = 0;
        self.total_dividend_checkpoint = 0;
        Ok(())
    }

    /// Counts `more` newly minted assets; zero is refused and changes nothing.
    pub fn increase_total_minted(&mut self, more: u64) -> (r: Result<(), LandLordErrors>)
        requires
            more == 0 || old(self).total_assets_minted + more <= u64::MAX,
        ensures
            more == 0 ==> r == Err::<(), LandLordErrors>(LandLordErrors::MintingAmountCantBeZero)
                && *final(self) == *old(self),
            more != 0 ==> r is Ok && *final(self) == (PlatformGovernor {
                total_assets_minted: (old(self).total_assets_minted + more) as u64,
                ..*old(self)
            }),
    {
        if more == 0 {
            return Err(LandLordErrors::MintingAmountCantBeZero);
        }
        self.total_assets_minted = self.total_assets_minted + more;
        Ok(())
    }

    /// Counts `more` new dividend checkpoints and returns the new total; zero is
    /// refused and changes nothing.
    pub fn update_dividend_checkpoints(&mut self, more: u64) -> (r: Result<u64, LandLordErrors>)
        requires
            more == 0 || old(self).total_dividend_checkpoint + more <= u64::MAX,
        ensures
            more == 0 ==> r == Err::<u64, LandLordErrors>(LandLordErrors::DividendCheckpointCantBeZero)
                && *final(self) == *old(self),
            more != 0 ==> r == Ok::<u64, LandLordErrors>((old(self).total_dividend_checkpoint + more) as u64)
                && *final(self) == (PlatformGovernor {
                total_dividend_checkpoint: (old(self).total_dividend_checkpoint + more) as u64,
                ..*old(self)
            }),
    {
        if more == 0 {
            return Err(LandLordErrors::DividendCheckpointCantBeZero);
        }
        self.total_dividend_checkpoint = self.total_dividend_checkpoint + more;
        Ok(self.total_dividend_checkpoint)
    }
}

} // verus!
