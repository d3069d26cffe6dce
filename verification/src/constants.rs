use vstd::prelude::*;

verus! {

// Sizes of account properties, in bytes.
pub const DISCRIMINATOR_LENGTH: usize = 8;
pub const PUBLIC_KEY_LENGTH: usize = 32;
pub const U128_LENGTH: usize = 16;
pub const BOOL_LENGTH: usize = 1;
pub const VEC_LENGTH_PREFIX: usize = 4;
/// Ten characters of at most four bytes each.
pub const MAX_TOPIC_LENGTH: usize = 10 * 4;

/// One hundred percent, in basis points.
pub const BASIS_POINT: u16 = 10000;

/// The seed of the treasury authority's program address, `b"spl_token_treasury"`.
pub open spec fn token_treasury_authority_pda_seed() -> Seq<u8> {
    seq![
        115u8, 112, 108, 95, 116, 111, 107, 101, 110, 95, 116, 114, 101, 97, 115, 117, 114, 121,
    ]
}

/// The seed of the treasury authority's program address, `b"spl_token_treasury"`.
pub fn token_treasury_authority_seed() -> (s: [u8; 18])
    ensures
        s@ == token_treasury_authority_pda_seed(),
{
    let s: [u8; 18] = [
        115, 112, 108, 95, 116, 111, 107, 101, 110, 95, 116, 114, 101, 97, 115, 117, 114, 121,
    ];
    assert(s@ =~= token_treasury_authority_pda_seed());
    s
}

} // verus!
