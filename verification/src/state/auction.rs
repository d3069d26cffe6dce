use vstd::prelude::*;

verus! {

/// The auction phase of an asset basket.
#[derive(Clone, Copy, Debug, PartialEq, Eq, Structural)]
pub enum AuctionState {
    REDEEM,
    INACTIVE,
    LIVE,
    END,
}

} // verus!
