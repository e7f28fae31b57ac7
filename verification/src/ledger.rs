use vstd::prelude::*;
use crate::address::Address;
use crate::car::{Car, CarStatus, Rental, RentalKey};
use crate::error::Error;
use crate::event::Event;
use crate::fees::{credited, owner_deposit_of};
use crate::transfer::Transfer;

verus! {

/// The sum of what all the listed owners can withdraw.
pub open spec fn total_owed(cars: Map<Address, Car>) -> int
    decreases cars.dom().len(),
    when cars.dom().finite()
{
    if cars.dom().len() == 0 {
        0
    } else {
        let owner = cars.dom().choose();
        cars[owner].available_to_withdraw + total_owed(cars.remove(owner))
    }
}

/// Any listed car can be taken out of the sum first.
pub proof fn lemma_total_owed_split(cars: Map<Address, Car>, owner: Address)
    requires
        cars.dom().finite(),
        cars.contains_key(owner),
    ensures
        total_owed(cars) == cars[owner].available_to_withdraw + total_owed(cars.remove(owner)),
    decreases cars.dom().len(),
{
    let first = cars.dom().choose();
    if first != owner {
        lemma_total_owed_split(cars.remove(first), owner);
        lemma_total_owed_split(cars.remove(owner), first);
        assert(cars.remove(first).remove(owner) =~= cars.remove(owner).remove(first));
    }
}

/// Writing a car changes the sum by the difference between the balance
/// written and the balance that was there.
pub proof fn lemma_total_owed_insert(cars: Map<Address, Car>, owner: Address, car: Car)
    requires
        cars.dom().finite(),
    ensures
        total_owed(cars.insert(owner, car)) == total_owed(cars) + car.available_to_withdraw - (
        if cars.contains_key(owner) {
            cars[owner].available_to_withdraw as int
        } else {
            0
        }),
{
    lemma_total_owed_split(cars.insert(owner, car), owner);
    assert(cars.insert(owner, car).remove(owner) =~= cars.remove(owner));
    if cars.contains_key(owner) {
        lemma_total_owed_split(cars, owner);
    } else {
        assert(cars.remove(owner) =~= cars);
    }
}

/// Deleting a car takes its balance out of the sum.
pub proof fn lemma_total_owed_remove(cars: Map<Address, Car>, owner: Address)
    requires
        cars.dom().finite(),
        cars.contains_key(owner),
    ensures
        total_owed(cars.remove(owner)) == total_owed(cars) - cars[owner].available_to_withdraw,
{
    lemma_total_owed_split(cars, owner);
}

/// Everything the rental ledger keeps: the five singletons, each absent
/// until first written, the cars by owner and the rentals by renter and owner.
#[verifier::ext_equal]
pub struct Ledger {
    pub admin: Option<Address>,
    pub token: Option<Address>,
    pub admin_fee: Option<i128>,
    pub admin_accumulated_fees: Option<i128>,
    pub contract_balance: Option<i128>,
    pub cars: Map<Address, Car>,
    pub rentals: Map<RentalKey, Rental>,
}

/// What an operation answers, and the ledger it leaves behind.
#[verifier::ext_equal]
pub struct Step<T> {
    pub outcome: Result<T, Error>,
    pub next: Ledger,
}

impl Ledger {
    /// The ledger before anything was written.
    pub open spec fn initial() -> Ledger {
        Ledger {
            admin: None,
            token: None,
            admin_fee: None,
            admin_accumulated_fees: None,
            contract_balance: None,
            cars: Map::empty(),
            rentals: Map::empty(),
        }
    }

    /// The admin fee in force: zero until one is set.
    pub open spec fn fee(self) -> i128 {
        match self.admin_fee {
            Some(fee) => fee,
            None => 0,
        }
    }

    /// The fees collected and not yet withdrawn: zero until a rental pays one.
    pub open spec fn accumulated_fees(self) -> i128 {
        match self.admin_accumulated_fees {
            Some(fees) => fees,
            None => 0,
        }
    }

    /// The funds in custody: zero until a rental is paid.
    pub open spec fn balance(self) -> i128 {
        match self.contract_balance {
            Some(balance) => balance,
            None => 0,
        }
    }

    /// What the ledger owes to the owners, all cars together.
    pub open spec fn owed(self) -> int {
        total_owed(self.cars)
    }

    /// The funds in custody are exactly what is owed to the owners plus the
    /// fees collected for the admin.
    pub open spec fn conserved(self) -> bool {
        self.balance() == self.owed() + self.accumulated_fees()
    }

    /// An operation that changes nothing and answers `error`.
    pub open spec fn refuse<T>(self, error: Error) -> Step<T> {
        Step { outcome: Err(error), next: self }
    }

    /// The stored admin, for a call that `caller` authorized: the call must
    /// come from the admin itself.
    pub open spec fn admin_for(self, caller: Address) -> Result<Address, Error> {
        match self.admin {
            None => Err(Error::AdminNotFound),
            Some(admin) => if caller == admin {
                Ok(admin)
            } else {
                Err(Error::AuthorizationRequired)
            },
        }
    }

    /// Sets the admin and the token, once.
    pub open spec fn construct(self, admin: Address, token: Address) -> Step<Event> {
        if admin == token {
            self.refuse(Error::AdminTokenConflict)
        } else if self.admin is Some {
            self.refuse(Error::ContractInitialized)
        } else {
            Step {
                outcome: Ok(Event::ContractInitialized { admin, token }),
                next: Ledger { admin: Some(admin), token: Some(token), ..self },
            }
        }
    }

    /// Lists a car for `owner`; only the admin may.
    pub open spec fn add_car(self, caller: Address, owner: Address, price_per_day: i128) -> Step<
        Event,
    > {
        match self.admin_for(caller) {
            Err(e) => self.refuse(e),
            Ok(_) => if price_per_day <= 0 {
                self.refuse(Error::AmountMustBePositive)
            } else if self.cars.contains_key(owner) {
                self.refuse(Error::CarAlreadyExist)
            } else {
                Step {
                    outcome: Ok(Event::CarAdded { owner, price_per_day }),
                    next: Ledger { cars: self.cars.insert(owner, Car::listed(price_per_day)), ..self },
                }
            },
        }
    }

    /// Drops the car of `owner`, whatever its state and balance; only the
    /// admin may.
    pub open spec fn remove_car(self, caller: Address, owner: Address) -> Step<Event> {
        match self.admin_for(caller) {
            Err(e) => self.refuse(e),
            Ok(_) => if !self.cars.contains_key(owner) {
                self.refuse(Error::CarNotFound)
            } else {
                Step {
                    outcome: Ok(Event::CarRemoved { owner }),
                    next: Ledger { cars: self.cars.remove(owner), ..self },
                }
            },
        }
    }

    /// The state of the car of `owner`.
    pub open spec fn car_status(self, owner: Address) -> Result<CarStatus, Error> {
        if self.cars.contains_key(owner) {
            Ok(self.cars[owner].car_status)
        } else {
            Err(Error::CarNotFound)
        }
    }

    /// Whether a rental may go ahead, and the payment that the token contract
    /// must then move into custody.
    pub open spec fn check_rental(
        self,
        caller: Address,
        renter: Address,
        owner: Address,
        total_days_to_rent: u32,
        amount: i128,
    ) -> Result<Transfer, Error> {
        if caller != renter {
            Err(Error::AuthorizationRequired)
        } else if amount < 0 {
            Err(Error::AmountMustBePositive)
        } else if total_days_to_rent == 0 {
            Err(Error::RentalDurationCannotBeZero)
        } else if renter == owner {
            Err(Error::SelfRentalNotAllowed)
        } else if !self.cars.contains_key(owner) {
            Err(Error::CarNotFound)
        } else if self.cars[owner].car_status != CarStatus::Available {
            Err(Error::CarAlreadyRented)
        } else {
            match owner_deposit_of(amount, self.fee()) {
                Err(e) => Err(e),
                Ok(_) => Ok(Transfer::deposit(renter, amount)),
            }
        }
    }

    /// Books a rental that passed `check_rental` and whose payment arrived:
    /// the owner is credited the payment less the fee, custody the payment,
    /// the admin the fee. An overflow in any of the three leaves the ledger
    /// as it was.
    pub open spec fn record_rental(
        self,
        renter: Address,
        owner: Address,
        total_days_to_rent: u32,
        amount: i128,
    ) -> Step<Event> {
        let deposit = (amount - self.fee()) as i128;
        let owner_balance = credited(self.cars[owner].available_to_withdraw, deposit);
        let contract_balance = credited(self.balance(), amount);
        let accumulated = credited(self.accumulated_fees(), self.fee());
        if owner_balance is Ok && contract_balance is Ok && accumulated is Ok {
            Step {
                outcome: Ok(Event::Rented { renter, owner, total_days_to_rent, amount }),
                next: Ledger {
                    cars: self.cars.insert(owner, self.cars[owner].rented_with(owner_balance->Ok_0)),
                    rentals: self.rentals.insert(
                        RentalKey { renter, owner },
                        Rental { total_days_to_rent, amount: deposit },
                    ),
                    contract_balance: Some(contract_balance->Ok_0),
                    admin_accumulated_fees: Some(accumulated->Ok_0),
                    ..self
                },
            }
        } else {
            self.refuse(Error::OverflowError)
        }
    }

    /// Rents the car of `owner` to `renter`, who must have authorized the
    /// call. `settled` is what the token contract answered to the transfer
    /// that `check_rental` names; it is looked at only once the request has
    /// passed every check.
    pub open spec fn rental(
        self,
        caller: Address,
        renter: Address,
        owner: Address,
        total_days_to_rent: u32,
        amount: i128,
        settled: Result<(), Error>,
    ) -> Step<Event> {
        match self.check_rental(caller, renter, owner, total_days_to_rent, amount) {
            Err(e) => self.refuse(e),
            Ok(_) => match settled {
                Err(e) => self.refuse(e),
                Ok(_) => self.record_rental(renter, owner, total_days_to_rent, amount),
            },
        }
    }

    /// Whether `owner` may be paid `amount`, and the transfer out of custody
    /// that pays it.
    pub open spec fn check_payout(self, caller: Address, owner: Address, amount: i128) -> Result<
        Transfer,
        Error,
    > {
        if caller != owner {
            Err(Error::AuthorizationRequired)
        } else if amount <= 0 {
            Err(Error::AmountMustBePositive)
        } else if !self.cars.contains_key(owner) {
            Err(Error::CarNotFound)
        } else if amount > self.cars[owner].available_to_withdraw {
            Err(Error::InsufficientBalance)
        } else if amount > self.balance() {
            Err(Error::BalanceNotAvailableForAmountRequested)
        } else {
            Ok(Transfer::release(owner, amount))
        }
    }

    /// Pays `amount` of what `owner` has earned; `settled` is what the token
    /// contract answered to the transfer that `check_payout` names.
    pub open spec fn payout_owner(
        self,
        caller: Address,
        owner: Address,
        amount: i128,
        settled: Result<(), Error>,
    ) -> Step<Event> {
        match self.check_payout(caller, owner, amount) {
            Err(e) => self.refuse(e),
            Ok(_) => match settled {
                Err(e) => self.refuse(e),
                Ok(_) => Step {
                    outcome: Ok(Event::OwnerPaidOut { owner, amount }),
                    next: Ledger {
                        cars: self.cars.insert(
                            owner,
                            self.cars[owner].with_balance(
                                (self.cars[owner].available_to_withdraw - amount) as i128,
                            ),
                        ),
                        contract_balance: Some((self.balance() - amount) as i128),
                        ..self
                    },
                },
            },
        }
    }

    /// Sets the admin fee; only the admin may, and must name itself.
    pub open spec fn set_admin_fee(self, caller: Address, admin: Address, fee: i128) -> Step<()> {
        match self.admin_for(caller) {
            Err(e) => self.refuse(e),
            Ok(stored) => if admin != stored {
                self.refuse(Error::AdminNotFound)
            } else if fee < 0 {
                self.refuse(Error::AmountMustBePositive)
            } else {
                Step { outcome: Ok(()), next: Ledger { admin_fee: Some(fee), ..self } }
            },
        }
    }

    /// Whether the admin may withdraw `amount` of the collected fees, and the
    /// transfer out of custody that pays it.
    pub open spec fn check_withdrawal(self, caller: Address, admin: Address, amount: i128) -> Result<
        Transfer,
        Error,
    > {
        match self.admin_for(caller) {
            Err(e) => Err(e),
            Ok(stored) => if admin != stored {
                Err(Error::AdminNotFound)
            } else if amount <= 0 {
                Err(Error::AmountMustBePositive)
            } else if amount > self.accumulated_fees() {
                Err(Error::InsufficientBalance)
            } else if amount > self.balance() {
                Err(Error::BalanceNotAvailableForAmountRequested)
            } else {
                Ok(Transfer::release(admin, amount))
            },
        }
    }

    /// Pays `amount` of the collected fees to the admin; `settled` is what
    /// the token contract answered to the transfer that `check_withdrawal`
    /// names.
    pub open spec fn withdraw_admin_fees(
        self,
        caller: Address,
        admin: Address,
        amount: i128,
        settled: Result<(), Error>,
    ) -> Step<()> {
        match self.check_withdrawal(caller, admin, amount) {
            Err(e) => self.refuse(e),
            Ok(_) => match settled {
                Err(e) => self.refuse(e),
                Ok(_) => Step {
                    outcome: Ok(()),
                    next: Ledger {
                        admin_accumulated_fees: Some((self.accumulated_fees() - amount) as i128),
                        contract_balance: Some((self.balance() - amount) as i128),
                        ..self
                    },
                },
            },
        }
    }

    /// Whether `renter` may hand the car of `owner` back: the call must come
    /// from the renter. Nothing is recorded.
    pub open spec fn return_car(self, caller: Address, renter: Address, owner: Address) -> Result<
        (),
        Error,
    > {
        if caller != renter {
            Err(Error::AuthorizationRequired)
        } else {
            Ok(())
        }
    }
}

} // verus!
