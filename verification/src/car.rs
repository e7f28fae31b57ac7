use vstd::prelude::*;
use crate::address::Address;

verus! {

/// Where a listed car stands in the rental cycle.
///
/// `Maintenance` is reserved: no operation of the ledger moves a car into it
/// or out of it.
#[derive(Clone, Copy, Debug, PartialEq, Eq, Structural)]
pub enum CarStatus {
    Available,
    Rented,
    Maintenance,
}

/// A listing, kept under its owner's address.
#[derive(Clone, Copy, Debug, PartialEq, Eq, Structural)]
pub struct Car {
    /// Advisory daily price; rentals are not checked against it.
    pub price_per_day: i128,
    pub car_status: CarStatus,
    /// What the owner has earned and not yet been paid.
    pub available_to_withdraw: i128,
}

impl Car {
    /// A fresh listing: available, with nothing to withdraw.
    pub open spec fn listed(price_per_day: i128) -> Car {
        Car { price_per_day, car_status: CarStatus::Available, available_to_withdraw: 0 }
    }

    /// This car once a rental has credited `balance` to its owner.
    pub open spec fn rented_with(self, balance: i128) -> Car {
        Car {
            price_per_day: self.price_per_day,
            car_status: CarStatus::Rented,
            available_to_withdraw: balance,
        }
    }

    /// This car with the owner's balance replaced.
    pub open spec fn with_balance(self, balance: i128) -> Car {
        Car {
            price_per_day: self.price_per_day,
            car_status: self.car_status,
            available_to_withdraw: balance,
        }
    }
}

/// The record of one rental, kept under the pair of renter and owner.
#[derive(Clone, Copy, Debug, PartialEq, Eq, Structural)]
pub struct Rental {
    pub total_days_to_rent: u32,
    /// The owner's net deposit: what the renter paid less the admin fee.
    pub amount: i128,
}

/// The pair of parties under which a rental is recorded.
#[derive(Clone, Copy, Debug, PartialEq, Eq, Structural)]
pub struct RentalKey {
    pub renter: Address,
    pub owner: Address,
}

} // verus!
