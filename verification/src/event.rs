use vstd::prelude::*;
use crate::address::Address;

verus! {

/// Notification that a market was activated for a pair of mints.
#[derive(Clone, Copy, Debug, PartialEq, Eq)]
pub struct InitializedEvent {
    pub coin_mint: Address,
    pub price_mint: Address,
}

} // verus!
