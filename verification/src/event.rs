use vstd::prelude::*;
use crate::address::Address;

verus! {

/// What a successful operation announces to the outside once its changes are
/// recorded.
#[derive(Clone, Copy, Debug, PartialEq, Eq, Structural)]
pub enum Event {
    ContractInitialized { admin: Address, token: Address },
    CarAdded { owner: Address, price_per_day: i128 },
    CarRemoved { owner: Address },
    /// `amount` is what the renter paid, admin fee included.
    Rented { renter: Address, owner: Address, total_days_to_rent: u32, amount: i128 },
    OwnerPaidOut { owner: Address, amount: i128 },
}

} // verus!
