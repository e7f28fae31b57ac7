use vstd::prelude::*;
use crate::address::Address;
use crate::car::{Car, CarStatus, Rental};
use crate::error::Error;
use crate::event::Event;
use crate::fees::{credit, debit, owner_deposit};
use crate::ledger::Ledger;
use crate::storage::Storage;
use crate::transfer::{Party, Transfer};

verus! {

/// What a rental request is booked with, once it passed every check.
struct RentalTerms {
    car: Car,
    admin_fee: i128,
    owner_deposit: i128,
}

/// What a payout is booked against, once it passed every check.
struct PayoutTerms {
    car: Car,
    contract_balance: i128,
}

/// What a withdrawal of fees is booked against, once it passed every check.
struct WithdrawalTerms {
    accumulated_fees: i128,
    contract_balance: i128,
}

/// The rental contract: the rules that guard every change to the store.
///
/// The contract does not reach the outside itself. Who authorized a call
/// comes in as `caller`. An operation that moves tokens is asked for in two
/// steps: `prepare_*` says which transfer the token contract must carry
/// out, and the operation itself takes what the token contract answered as
/// `settled`. What is to be announced comes back as an [`Event`].
pub struct RentACarContract {
    storage: Storage,
}

impl View for RentACarContract {
    type V = Ledger;

    closed spec fn view(&self) -> Ledger {
        self.storage@
    }
}

impl RentACarContract {
    /// The store behind the contract is well formed.
    pub closed spec fn wf(&self) -> bool {
        self.storage.wf()
    }

    /// A contract holds finitely many cars and rentals.
    pub proof fn lemma_finite(&self)
        ensures
            self@.cars.dom().finite(),
            self@.rentals.dom().finite(),
    {
        self.storage.lemma_finite();
    }

    /// A contract on an empty store, not yet constructed.
    pub fn new() -> (c: RentACarContract)
        ensures
            c.wf(),
            c@ == Ledger::initial(),
    {
        RentACarContract { storage: Storage::new() }
    }

    /// A contract on what `storage` holds.
    pub fn open(storage: Storage) -> (c: RentACarContract)
        requires
            storage.wf(),
        ensures
            c.wf(),
            c@ == storage@,
    {
        RentACarContract { storage }
    }

    /// The store as the operations so far have left it.
    pub fn storage(&self) -> (s: &Storage)
        requires
            self.wf(),
        ensures
            s.wf(),
            s@ == self@,
    {
        &self.storage
    }

    /// The stored admin, for a call that `caller` authorized.
    fn admin_for(&self, caller: &Address) -> (r: Result<Address, Error>)
        ensures
            r == self@.admin_for(*caller),
    {
        let admin = self.storage.read_admin()?;
        if *caller != admin {
            return Err(Error::AuthorizationRequired);
        }
        Ok(admin)
    }

    /// Sets the admin and the token of a contract that has neither; they
    /// must differ.
    pub fn __constructor(&mut self, admin: Address, token: Address) -> (r: Result<Event, Error>)
        requires
            old(self).wf(),
        ensures
            final(self).wf(),
            r == old(self)@.construct(admin, token).outcome,
            final(self)@ == old(self)@.construct(admin, token).next,
    {
        if admin == token {
            return Err(Error::AdminTokenConflict);
        }
        if self.storage.has_admin() {
            return Err(Error::ContractInitialized);
        }
        self.storage.write_admin(&admin);
        self.storage.write_token(&token);
        Ok(Event::ContractInitialized { admin, token })
    }

    /// Lists a car for `owner` at `price_per_day`, available and with
    /// nothing to withdraw. Only the admin may; the price must be positive
    /// and the owner must have no car yet.
    pub fn add_car(&mut self, caller: Address, owner: Address, price_per_day: i128) -> (r: Result<
        Event,
        Error,
    >)
        requires
            old(self).wf(),
        ensures
            final(self).wf(),
            r == old(self)@.add_car(caller, owner, price_per_day).outcome,
            final(self)@ == old(self)@.add_car(caller, owner, price_per_day).next,
    {
        self.admin_for(&caller)?;
        if price_per_day <= 0 {
            return Err(Error::AmountMustBePositive);
        }
        if self.storage.has_car(&owner) {
            return Err(Error::CarAlreadyExist);
        }
        let car = Car {
            price_per_day,
            car_status: CarStatus::Available,
            available_to_withdraw: 0,
        };
        self.storage.write_car(&owner, &car);
        Ok(Event::CarAdded { owner, price_per_day })
    }

    /// The state of the car of `owner`.
    pub fn get_car_status(&self, owner: Address) -> (r: Result<CarStatus, Error>)
        requires
            self.wf(),
        ensures
            r == self@.car_status(owner),
    {
        let car = self.storage.read_car(&owner)?;
        Ok(car.car_status)
    }

    /// Checks a rental request against the store.
    fn rental_terms(
        &self,
        caller: &Address,
        renter: &Address,
        owner: &Address,
        total_days_to_rent: u32,
        amount: i128,
    ) -> (r: Result<RentalTerms, Error>)
        requires
            self.wf(),
        ensures
            match r {
                Ok(terms) => {
                    &&& self@.check_rental(*caller, *renter, *owner, total_days_to_rent, amount) is Ok
                    &&& terms.car == self@.cars[*owner]
                    &&& terms.admin_fee == self@.fee()
                    &&& terms.owner_deposit == amount - self@.fee()
                },
                Err(e) => self@.check_rental(*caller, *renter, *owner, total_days_to_rent, amount)
                    == Err::<Transfer, Error>(e),
            },
    {
        if *caller != *renter {
            return Err(Error::AuthorizationRequired);
        }
        if amount < 0 {
            return Err(Error::AmountMustBePositive);
        }
        if total_days_to_rent == 0 {
            return Err(Error::RentalDurationCannotBeZero);
        }
        if *renter == *owner {
            return Err(Error::SelfRentalNotAllowed);
        }
        let car = self.storage.read_car(owner)?;
        if car.car_status != CarStatus::Available {
            return Err(Error::CarAlreadyRented);
        }
        let admin_fee = self.storage.read_admin_fee();
        let owner_deposit = owner_deposit(amount, admin_fee)?;
        Ok(RentalTerms { car, admin_fee, owner_deposit })
    }

    /// Says whether `renter` may rent the car of `owner`, and if so which
    /// payment the token contract has to move into custody first.
    pub fn prepare_rental(
        &self,
        caller: Address,
        renter: Address,
        owner: Address,
        total_days_to_rent: u32,
        amount: i128,
    ) -> (r: Result<Transfer, Error>)
        requires
            self.wf(),
        ensures
            r == self@.check_rental(caller, renter, owner, total_days_to_rent, amount),
    {
        self.rental_terms(&caller, &renter, &owner, total_days_to_rent, amount)?;
        Ok(Transfer { from: Party::Holder(renter), to: Party::Custody, amount })
    }

    /// Rents the car of `owner` to `renter` for `amount`, admin fee
    /// included. The request is checked first; then `settled`, the token
    /// contract's answer to the payment, decides; then the owner's share,
    /// the funds in custody and the collected fees are raised, each with an
    /// overflow check. Unless all of it succeeds nothing is written.
    pub fn rental(
        &mut self,
        caller: Address,
        renter: Address,
        owner: Address,
        total_days_to_rent: u32,
        amount: i128,
        settled: Result<(), Error>,
    ) -> (r: Result<Event, Error>)
        requires
            old(self).wf(),
        ensures
            final(self).wf(),
            r == old(self)@.rental(
                caller,
                renter,
                owner,
                total_days_to_rent,
                amount,
                settled,
            ).outcome,
            final(self)@ == old(self)@.rental(
                caller,
                renter,
                owner,
                total_days_to_rent,
                amount,
                settled,
            ).next,
    {
        let terms = self.rental_terms(&caller, &renter, &owner, total_days_to_rent, amount)?;
        settled?;

        let owner_balance = credit(terms.car.available_to_withdraw, terms.owner_deposit)?;
        let car = Car {
            price_per_day: terms.car.price_per_day,
            car_status: CarStatus::Rented,
            available_to_withdraw: owner_balance,
        };
        let rental = Rental { total_days_to_rent, amount: terms.owner_deposit };
        let contract_balance = credit(self.storage.read_contract_balance(), amount)?;
        let accumulated_fees = credit(self.storage.read_admin_accumulated_fees(), terms.admin_fee)?;

        self.storage.write_car(&owner, &car);
        self.storage.write_rental(&renter, &owner, &rental);
        self.storage.write_contract_balance(&contract_balance);
        self.storage.write_admin_accumulated_fees(&accumulated_fees);
        Ok(Event::Rented { renter, owner, total_days_to_rent, amount })
    }

    /// Checks a payout request against the store.
    fn payout_terms(&self, caller: &Address, owner: &Address, amount: i128) -> (r: Result<
        PayoutTerms,
        Error,
    >)
        requires
            self.wf(),
        ensures
            match r {
                Ok(terms) => {
                    &&& self@.check_payout(*caller, *owner, amount) is Ok
                    &&& terms.car == self@.cars[*owner]
                    &&& terms.contract_balance == self@.balance()
                },
                Err(e) => self@.check_payout(*caller, *owner, amount) == Err::<Transfer, Error>(e),
            },
    {
        if *caller != *owner {
            return Err(Error::AuthorizationRequired);
        }
        if amount <= 0 {
            return Err(Error::AmountMustBePositive);
        }
        let car = self.storage.read_car(owner)?;
        if amount > car.available_to_withdraw {
            return Err(Error::InsufficientBalance);
        }
        let contract_balance = self.storage.read_contract_balance();
        if amount > contract_balance {
            return Err(Error::BalanceNotAvailableForAmountRequested);
        }
        Ok(PayoutTerms { car, contract_balance })
    }

    /// Says whether `owner` may be paid `amount`, and if so which transfer
    /// out of custody the token contract has to carry out first.
    pub fn prepare_payout(&self, caller: Address, owner: Address, amount: i128) -> (r: Result<
        Transfer,
        Error,
    >)
        requires
            self.wf(),
        ensures
            r == self@.check_payout(caller, owner, amount),
    {
        self.payout_terms(&caller, &owner, amount)?;
        Ok(Transfer { from: Party::Custody, to: Party::Holder(owner), amount })
    }

    /// Pays `owner` `amount` of what the car has earned. The amount must be
    /// positive and covered both by the owner's balance and by the funds in
    /// custody; then `settled`, the token contract's answer to the transfer,
    /// decides; then both balances are lowered.
    pub fn payout_owner(
        &mut self,
        caller: Address,
        owner: Address,
        amount: i128,
        settled: Result<(), Error>,
    ) -> (r: Result<Event, Error>)
        requires
            old(self).wf(),
        ensures
            final(self).wf(),
            r == old(self)@.payout_owner(caller, owner, amount, settled).outcome,
            final(self)@ == old(self)@.payout_owner(caller, owner, amount, settled).next,
    {
        let terms = self.payout_terms(&caller, &owner, amount)?;
        settled?;

        let owner_balance = debit(terms.car.available_to_withdraw, amount)?;
        let car = Car {
            price_per_day: terms.car.price_per_day,
            car_status: terms.car.car_status,
            available_to_withdraw: owner_balance,
        };
        let contract_balance = debit(terms.contract_balance, amount)?;

        self.storage.write_car(&owner, &car);
        self.storage.write_contract_balance(&contract_balance);
        Ok(Event::OwnerPaidOut { owner, amount })
    }

    /// Drops the car of `owner`. Only the admin may. Neither the car's
    /// state nor an outstanding balance stands in the way.
    pub fn remove_car(&mut self, caller: Address, owner: Address) -> (r: Result<Event, Error>)
        requires
            old(self).wf(),
        ensures
            final(self).wf(),
            r == old(self)@.remove_car(caller, owner).outcome,
            final(self)@ == old(self)@.remove_car(caller, owner).next,
    {
        self.admin_for(&caller)?;
        if !self.storage.has_car(&owner) {
            return Err(Error::CarNotFound);
        }
        self.storage.remove_car(&owner);
        Ok(Event::CarRemoved { owner })
    }

    /// Sets the admin fee that later rentals pay. Only the admin may, and
    /// must name itself; the fee must not be negative.
    pub fn set_admin_fee(&mut self, caller: Address, admin: Address, fee: i128) -> (r: Result<
        (),
        Error,
    >)
        requires
            old(self).wf(),
        ensures
            final(self).wf(),
            r == old(self)@.set_admin_fee(caller, admin, fee).outcome,
            final(self)@ == old(self)@.set_admin_fee(caller, admin, fee).next,
    {
        let stored_admin = self.admin_for(&caller)?;
        if admin != stored_admin {
            return Err(Error::AdminNotFound);
        }
        if fee < 0 {
            return Err(Error::AmountMustBePositive);
        }
        self.storage.write_admin_fee(&fee);
        Ok(())
    }

    /// The admin fee in force: zero until one is set.
    pub fn get_admin_fee(&self) -> (fee: i128)
        ensures
            fee == self@.fee(),
    {
        self.storage.read_admin_fee()
    }

    /// The fees collected and not yet withdrawn.
    pub fn get_admin_accumulated_fees(&self) -> (fees: i128)
        ensures
            fees == self@.accumulated_fees(),
    {
        self.storage.read_admin_accumulated_fees()
    }

    /// Checks a withdrawal of fees against the store.
    fn withdrawal_terms(&self, caller: &Address, admin: &Address, amount: i128) -> (r: Result<
        WithdrawalTerms,
        Error,
    >)
        ensures
            match r {
                Ok(terms) => {
                    &&& self@.check_withdrawal(*caller, *admin, amount) is Ok
                    &&& terms.accumulated_fees == self@.accumulated_fees()
                    &&& terms.contract_balance == self@.balance()
                },
                Err(e) => self@.check_withdrawal(*caller, *admin, amount) == Err::<Transfer, Error>(
                    e,
                ),
            },
    {
        let stored_admin = self.admin_for(caller)?;
        if *admin != stored_admin {
            return Err(Error::AdminNotFound);
        }
        if amount <= 0 {
            return Err(Error::AmountMustBePositive);
        }
        let accumulated_fees = self.storage.read_admin_accumulated_fees();
        if amount > accumulated_fees {
            return Err(Error::InsufficientBalance);
        }
        let contract_balance = self.storage.read_contract_balance();
        if amount > contract_balance {
            return Err(Error::BalanceNotAvailableForAmountRequested);
        }
        Ok(WithdrawalTerms { accumulated_fees, contract_balance })
    }

    /// Says whether the admin may withdraw `amount` of the collected fees,
    /// and if so which transfer out of custody the token contract has to
    /// carry out first.
    pub fn prepare_withdrawal(&self, caller: Address, admin: Address, amount: i128) -> (r: Result<
        Transfer,
        Error,
    >)
        ensures
            r == self@.check_withdrawal(caller, admin, amount),
    {
        self.withdrawal_terms(&caller, &admin, amount)?;
        Ok(Transfer { from: Party::Custody, to: Party::Holder(admin), amount })
    }

    /// Pays the admin `amount` of the collected fees. Only the admin may,
    /// and must name itself; the amount must be positive and covered both by
    /// the collected fees and by the funds in custody; then `settled`, the
    /// token contract's answer to the transfer, decides; then both are
    /// lowered.
    pub fn withdraw_admin_fees(
        &mut self,
        caller: Address,
        admin: Address,
        amount: i128,
        settled: Result<(), Error>,
    ) -> (r: Result<(), Error>)
        requires
            old(self).wf(),
        ensures
            final(self).wf(),
            r == old(self)@.withdraw_admin_fees(caller, admin, amount, settled).outcome,
            final(self)@ == old(self)@.withdraw_admin_fees(caller, admin, amount, settled).next,
    {
        let terms = self.withdrawal_terms(&caller, &admin, amount)?;
        settled?;

        let accumulated_fees = debit(terms.accumulated_fees, amount)?;
        let contract_balance = debit(terms.contract_balance, amount)?;

        self.storage.write_admin_accumulated_fees(&accumulated_fees);
        self.storage.write_contract_balance(&contract_balance);
        Ok(())
    }

    /// Takes note that `renter` hands the car of `owner` back. The call must
    /// come from the renter; nothing is recorded.
    pub fn return_car(&self, caller: Address, renter: Address, owner: Address) -> (r: Result<
        (),
        Error,
    >)
        ensures
            r == self@.return_car(caller, renter, owner),
    {
        if caller != renter {
            return Err(Error::AuthorizationRequired);
        }
        Ok(())
    }
}

} // verus!
