use vstd::prelude::*;

use crate::constants::{BASIS_POINT, DISCRIMINATOR_LENGTH, PUBLIC_KEY_LENGTH, U128_LENGTH};
use crate::errors::LandLordErrors;
use crate::pubkey::Pubkey;

verus! {

/// Platform-wide settings.
#[derive(Clone, Copy, Debug)]
pub struct LafomuoSetting {
    pub governor: Pubkey,
    /// How long an escrow stays locked, in seconds.
    pub escrow_lock_duration: i64,
    /// How long before a dividend distribution starts that lockers close, in seconds.
    pub pre_lock_before_distribution: i64,
    pub min_reserve_factor: u16,
    pub max_reserve_factor: u16,
}

/// The error with which settings with these reserve factors are refused, if any:
/// both must be positive, the minimum at most the maximum, and both at most
/// `BASIS_POINT`.
pub open spec fn reserve_factor_error(min_reserve_factor: u16, max_reserve_factor: u16) -> Option<LandLordErrors> {
    if min_reserve_factor == 0 || max_reserve_factor == 0 {
        Some(LandLordErrors::InvalidReserveFactorForSetting)
    } else if min_reserve_factor > max_reserve_factor {
        Some(LandLordErrors::MinReserveFactorGreaterThanMax)
    } else if min_reserve_factor > BASIS_POINT || max_reserve_factor > BASIS_POINT {
        Some(LandLordErrors::ReserveFactorMoreThanBasisPoint)
    } else {
        None
    }
}

impl LafomuoSetting {
    pub const LEN: usize = DISCRIMINATOR_LENGTH + PUBLIC_KEY_LENGTH + U128_LENGTH + U128_LENGTH / 4;

    /// Valid settings: reserve factors that `init` accepts.
    pub open spec fn wf(&self) -> bool {
        reserve_factor_error(self.min_reserve_factor, self.max_reserve_factor) is None
    }

    /// Sets up the settings, refusing reserve factors that are zero, out of order, or
    /// above one hundred percent; on refusal nothing changes.
    pub fn init(
        &mut self,
        governor: Pubkey,
        escrow_lock_duration: i64,
        pre_lock_before_distribution: i64,
        min_reserve_factor: u16,
        max_reserve_factor: u16,
    ) -> (r: Result<(), LandLordErrors>)
        ensures
            match reserve_factor_error(min_reserve_factor, max_reserve_factor) {
                Some(e) => r == Err::<(), LandLordErrors>(e) && *final(self) == *old(self),
                None => r is Ok && *final(self) == (LafomuoSetting {
                    governor,
                    escrow_lock_duration,
                    pre_lock_before_distribution,
                    min_reserve_factor,
                    max_reserve_factor,
                }),
            },
            r is Ok ==> final(self).wf(),
    {
        if min_reserve_factor == 0 || max_reserve_factor == 0 {
            return Err(LandLordErrors::InvalidReserveFactorForSetting);
        }
        if min_reserve_factor > max_reserve_factor {
            return Err(LandLordErrors::MinReserveFactorGreaterThanMax);
        }
        if min_reserve_factor > BASIS_POINT || max_reserve_factor > BASIS_POINT {
            return Err(LandLordErrors::ReserveFactorMoreThanBasisPoint);
        }
        self.min_reserve_factor = min_reserve_factor;
        self.max_reserve_factor = max_reserve_factor;
        self.governor = governor;
        self.escrow_lock_duration = escrow_lock_duration;
        self.pre_lock_before_distribution = pre_lock_before_distribution;
        Ok(())
    }
}

} // verus!
