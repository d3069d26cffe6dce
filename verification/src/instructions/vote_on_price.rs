use vstd::prelude::*;

use crate::errors::LandLordErrors;
use crate::pubkey::Pubkey;
use crate::state::platform_governor::PlatformGovernor;

verus! {

/// Accepts a price vote on an asset; the only check is that the governor's settings
/// are the ones given (voting itself records nothing yet).
pub fn process_vote_on_price(governor: &PlatformGovernor, setting: Pubkey, price: u64) -> (r: Result<(), LandLordErrors>)
    ensures
        r == (if governor.setting@ == setting@ {
            Ok::<(), LandLordErrors>(())
        } else {
            Err(LandLordErrors::SettingAccountMismatched)
        }),
{
    if !governor.setting.equals(&setting) {
        return Err(LandLordErrors::SettingAccountMismatched);
    }
    Ok(())
}

} // verus!
