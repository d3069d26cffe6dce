use vstd::prelude::*;

use crate::pubkey::Pubkey;

verus! {

/// An asset has been issued.
#[derive(Clone, Copy, Debug)]
pub struct AssetIssuance {
    pub owner: Pubkey,
    pub asset_id: Pubkey,
    pub asset_token_account: Pubkey,
    pub owner_pda: Pubkey,
    pub master_edition: Pubkey,
    pub metadata: Pubkey,
    pub iat: i64,
}

/// An asset has been fractionalized.
#[derive(Clone, Copy, Debug)]
pub struct AssetFractionalize {
    pub asset_basket: Pubkey,
    pub governor: Pubkey,
    pub mint: Pubkey,
    pub total_supply: u64,
}

/// A dividend checkpoint has been created.
#[derive(Clone, Copy, Debug)]
pub struct DistributionCreated {
    pub checkpoint_id: u64,
    pub distributor: Pubkey,
    pub owner: Pubkey,
    pub total_distribution_amount: u64,
    pub start_distribution_at: i64,
    pub locker: Pubkey,
}

/// A dividend has been claimed.
#[derive(Clone, Copy, Debug)]
pub struct DividendClaimed {
    pub checkpoint_id: u64,
    pub distributor: Pubkey,
    pub owner: Pubkey,
    pub total_claimed: u64,
    pub last_claimed_at: i64,
}

/// A locker has been created.
#[derive(Clone, Copy, Debug)]
pub struct NewLockerEvent {
    pub governor: Pubkey,
    pub locker: Pubkey,
    pub token_mint: Pubkey,
    pub asset_id: Pubkey,
    pub basket_id: u64,
}

/// An escrow has been created.
#[derive(Clone, Copy, Debug)]
pub struct NewEscrowEvent {
    /// The escrow being created.
    pub escrow: Pubkey,
    /// The owner of the escrow.
    pub escrow_owner: Pubkey,
    /// The locker for the escrow.
    pub locker: Pubkey,
    /// Timestamp for the event.
    pub timestamp: i64,
}

/// Tokens have been locked in an escrow.
#[derive(Clone, Copy, Debug)]
pub struct LockEvent {
    /// The locker of the escrow.
    pub locker: Pubkey,
    /// The owner of the escrow.
    pub escrow_owner: Pubkey,
    /// Mint of the token that the locker holds.
    pub token_mint: Pubkey,
    /// Amount of tokens locked.
    pub amount: u64,
    /// Amount of tokens locked inside the locker.
    pub locker_supply: u64,
}

/// An escrow has been emptied and closed.
#[derive(Clone, Copy, Debug)]
pub struct ExitEscrowEvent {
    pub escrow_owner: Pubkey,
    pub locker: Pubkey,
    pub locker_supply: u64,
    pub timestamp: i64,
    pub released_amount: u64,
}

/// The standard (padded) base64 encoding of `input`, as the `base64` crate computes it.
pub uninterp spec fn base64_standard(input: Seq<u8>) -> Seq<u8>;

/// The length of the padded base64 encoding of `n` bytes.
pub open spec fn base64_encoded_len(n: nat) -> nat {
    if n % 3 == 0 {
        (n / 3) * 4
    } else {
        (n / 3) * 4 + 4
    }
}

/// Calls `base64::encode_config_slice` with the `STANDARD` configuration: it writes the
/// encoding of `input` at the start of `output`, leaves the rest of `output` as it
/// was, and returns the encoding's length (it panics when `output` is too short).
#[verifier::external_body]
fn base64_encode_slice(input: &[u8], output: &mut [u8]) -> (n: usize)
    requires
        base64_encoded_len(input@.len()) <= old(output)@.len(),
    ensures
        n == base64_encoded_len(input@.len()),
        final(output)@.len() == old(output)@.len(),
        final(output)@.take(n as int) == base64_standard(input@),
        final(output)@.skip(n as int) == old(output)@.skip(n as int),
{
    base64::encode_config_slice(input, base64::STANDARD, output)
}

/// Frames an event for the program log: writes the event's discriminator and its
/// serialized bytes at the start of `data_buf`, writes their base64 encoding at the
/// start of `out_buf`, and returns the encoding's length. The rest of both buffers is
/// left as it was.
pub fn frame_event_log(discriminator: &[u8; 8], payload: &[u8], data_buf: &mut [u8], out_buf: &mut [u8]) -> (out_len: usize)
    requires
        8 + payload@.len() <= old(data_buf)@.len(),
        base64_encoded_len(8 + payload@.len()) <= old(out_buf)@.len(),
    ensures
        final(data_buf)@.len() == old(data_buf)@.len(),
        final(data_buf)@.take(8 + payload@.len() as int) == discriminator@ + payload@,
        final(data_buf)@.skip(8 + payload@.len() as int) == old(data_buf)@.skip(8 + payload@.len() as int),
        out_len == base64_encoded_len(8 + payload@.len()),
        final(out_buf)@.len() == old(out_buf)@.len(),
        final(out_buf)@.take(out_len as int) == base64_standard(discriminator@ + payload@),
        final(out_buf)@.skip(out_len as int) == old(out_buf)@.skip(out_len as int),
{
    let ghost old_data = data_buf@;
    let dlen = data_buf.len();
    let mut i: usize = 0;
    while i < 8
        invariant
            i <= 8,
            8 + payload@.len() <= data_buf@.len(),
            data_buf@.len() == old_data.len(),
            dlen == data_buf@.len(),
            forall|j: int| 0 <= j < i ==> data_buf@[j] == discriminator@[j],
            forall|j: int| i <= j < data_buf@.len() ==> data_buf@[j] == old_data[j],
        decreases 8 - i,
    {
        data_buf[i] = discriminator[i];
        i = i + 1;
    }
    let mut k: usize = 0;
    while k < payload.len()
        invariant
            k <= payload@.len(),
            8 + payload@.len() <= data_buf@.len(),
            data_buf@.len() == old_data.len(),
            dlen == data_buf@.len(),
            forall|j: int| 0 <= j < 8 ==> data_buf@[j] == discriminator@[j],
            forall|j: int| 0 <= j < k ==> data_buf@[8 + j] == payload@[j],
            forall|j: int| 8 + k <= j < data_buf@.len() ==> data_buf@[j] == old_data[j],
        decreases payload@.len() - k,
    {
        data_buf[8 + k] = payload[k];
        k = k + 1;
    }
    let data_len = 8 + payload.len();
    assert(data_buf@.take(data_len as int) =~= discriminator@ + payload@);
    assert(data_buf@.skip(data_len as int) =~= old_data.skip(data_len as int));
    let out_len = base64_encode_slice(&data_buf[0..data_len], out_buf);
    out_len
}

} // verus!
