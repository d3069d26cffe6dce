use vstd::prelude::*;

verus! {

/// The number of bytes in a public key.
pub const PUBKEY_BYTES: usize = 32;

/// A 32-byte account address, held as plain bytes.
#[derive(Clone, Copy, Debug, PartialEq, Eq)]
pub struct Pubkey {
    pub bytes: [u8; 32],
}

impl View for Pubkey {
    type V = Seq<u8>;

    open spec fn view(&self) -> Seq<u8> {
        self.bytes@
    }
}

impl Pubkey {
    /// Whether two keys are the same.
    pub fn equals(&self, other: &Pubkey) -> (r: bool)
        ensures
            r <==> self@ == other@,
    {
        crate::assertions::cmp_pubkeys(self, other)
    }
}

/// The bytes of this program's address, `2bUX9z3VgNm8yYzqxBMS1Fto3L5r7dkWTUp85ukciBcg`.
pub open spec fn program_id_bytes() -> Seq<u8> {
    seq![
        23u8, 176, 141, 33, 229, 32, 157, 94, 71, 3, 78, 226, 33, 187, 14, 86,
        73, 207, 174, 225, 242, 213, 239, 14, 87, 52, 174, 254, 199, 79, 142, 245,
    ]
}

/// The bytes of the SPL token program's address, `TokenkegQfeZyiNwAJbNbGKPFXCWuBvf9Ss623VQ5DA`.
pub open spec fn token_program_id_bytes() -> Seq<u8> {
    seq![
        6u8, 221, 246, 225, 215, 101, 161, 147, 217, 203, 225, 70, 206, 235, 121, 172,
        28, 180, 133, 237, 95, 91, 55, 145, 58, 140, 245, 133, 126, 255, 0, 169,
    ]
}

/// This program's address.
pub fn id() -> (k: Pubkey)
    ensures
        k.bytes@ == program_id_bytes(),
{
    let bytes: [u8; 32] = [
        23, 176, 141, 33, 229, 32, 157, 94, 71, 3, 78, 226, 33, 187, 14, 86,
        73, 207, 174, 225, 242, 213, 239, 14, 87, 52, 174, 254, 199, 79, 142, 245,
    ];
    assert(bytes@ =~= program_id_bytes());
    Pubkey { bytes }
}

/// Calls `spl_token::id()`, the SPL token program's address; its declaration in
/// spl-token is `declare_id!("TokenkegQfeZyiNwAJbNbGKPFXCWuBvf9Ss623VQ5DA")`, whose
/// base58 decoding the contract states.
#[verifier::external_body]
pub(crate) fn token_program_id() -> (k: Pubkey)
    ensures
        k.bytes@ == token_program_id_bytes(),
{
    Pubkey { bytes: anchor_spl::token::spl_token::id().to_bytes() }
}

/// The address that `spl_associated_token_account::get_associated_token_address`
/// derives for a wallet and a mint.
pub uninterp spec fn associated_token_address(wallet: Seq<u8>, mint: Seq<u8>) -> Pubkey;

/// The result of `Pubkey::try_find_program_address` for the given seeds and program:
/// the first off-curve address found with a bump seed from 255 downwards, with that bump.
pub uninterp spec fn program_address(seeds: Seq<Seq<u8>>, program_id: Seq<u8>) -> Option<(Pubkey, u8)>;

/// Calls `anchor_spl::associated_token::get_associated_token_address`, a pure
/// derivation from the wallet and the mint. Left unsaid: that function panics in the
/// (astronomically unlikely) case where no bump seed yields an off-curve address.
#[verifier::external_body]
pub(crate) fn get_associated_token_address(wallet: &Pubkey, mint: &Pubkey) -> (k: Pubkey)
    ensures
        k == associated_token_address(wallet@, mint@),
{
    let w = anchor_lang::prelude::Pubkey::new_from_array(wallet.bytes);
    let m = anchor_lang::prelude::Pubkey::new_from_array(mint.bytes);
    Pubkey { bytes: anchor_spl::associated_token::get_associated_token_address(&w, &m).to_bytes() }
}

/// Calls `Pubkey::try_find_program_address` with a single seed; its result is a
/// function of the seeds and the program id alone.
#[verifier::external_body]
pub(crate) fn try_find_program_address(seed: &[u8], program_id: &Pubkey) -> (r: Option<(Pubkey, u8)>)
    ensures
        r == program_address(seq![seed@], program_id@),
{
    let p = anchor_lang::prelude::Pubkey::new_from_array(program_id.bytes);
    match anchor_lang::prelude::Pubkey::try_find_program_address(&[seed], &p) {
        Some((k, bump)) => Some((Pubkey { bytes: k.to_bytes() }, bump)),
        None => None,
    }
}

} // verus!
