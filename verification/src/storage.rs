use vstd::prelude::*;
use crate::address::Address;
use crate::car::{Car, Rental, RentalKey};
use crate::error::Error;
use crate::ledger::Ledger;
use crate::table::{Key, Table};

verus! {

impl Key for Address {
    fn same(&self, other: &Self) -> (r: bool) {
        *self == *other
    }
}

impl Key for RentalKey {
    fn same(&self, other: &Self) -> (r: bool) {
        self.renter == other.renter && self.owner == other.owner
    }
}

/// The typed store behind the contract: one slot for each singleton, the
/// cars by owner and the rentals by renter and owner.
///
/// The store checks nothing about amounts; the rules are the contract's.
pub struct Storage {
    admin: Option<Address>,
    token: Option<Address>,
    admin_fee: Option<i128>,
    admin_accumulated_fees: Option<i128>,
    contract_balance: Option<i128>,
    cars: Table<Address, Car>,
    rentals: Table<RentalKey, Rental>,
}

impl View for Storage {
    type V = Ledger;

    closed spec fn view(&self) -> Ledger {
        Ledger {
            admin: self.admin,
            token: self.token,
            admin_fee: self.admin_fee,
            admin_accumulated_fees: self.admin_accumulated_fees,
            contract_balance: self.contract_balance,
            cars: self.cars@,
            rentals: self.rentals@,
        }
    }
}

impl Storage {
    /// Both tables hold each key once.
    pub closed spec fn wf(&self) -> bool {
        self.cars.wf() && self.rentals.wf()
    }

    /// A store holds finitely many cars and rentals.
    pub proof fn lemma_finite(&self)
        ensures
            self@.cars.dom().finite(),
            self@.rentals.dom().finite(),
    {
        self.cars.lemma_finite();
        self.rentals.lemma_finite();
    }

    /// The store in which nothing was written yet.
    pub fn new() -> (s: Storage)
        ensures
            s.wf(),
            s@ == Ledger::initial(),
    {
        Storage {
            admin: None,
            token: None,
            admin_fee: None,
            admin_accumulated_fees: None,
            contract_balance: None,
            cars: Table::new(),
            rentals: Table::new(),
        }
    }

    /// Whether an admin is stored.
    pub fn has_admin(&self) -> (r: bool)
        ensures
            r == (self@.admin is Some),
    {
        self.admin.is_some()
    }

    /// The stored admin.
    pub fn read_admin(&self) -> (r: Result<Address, Error>)
        ensures
            r == (match self@.admin {
                Some(admin) => Ok::<Address, Error>(admin),
                None => Err(Error::AdminNotFound),
            }),
    {
        match self.admin {
            Some(admin) => Ok(admin),
            None => Err(Error::AdminNotFound),
        }
    }

    /// Stores `admin` as the admin.
    pub fn write_admin(&mut self, admin: &Address)
        requires
            old(self).wf(),
        ensures
            final(self).wf(),
            final(self)@ == (Ledger { admin: Some(*admin), ..old(self)@ }),
    {
        self.admin = Some(*admin);
    }

    /// The stored token address, if one was written.
    pub fn read_token(&self) -> (r: Option<Address>)
        ensures
            r == self@.token,
    {
        self.token
    }

    /// Stores `token` as the address of the token contract.
    pub fn write_token(&mut self, token: &Address)
        requires
            old(self).wf(),
        ensures
            final(self).wf(),
            final(self)@ == (Ledger { token: Some(*token), ..old(self)@ }),
    {
        self.token = Some(*token);
    }

    /// Whether an admin fee was ever written.
    pub fn has_admin_fee(&self) -> (r: bool)
        ensures
            r == (self@.admin_fee is Some),
    {
        self.admin_fee.is_some()
    }

    /// The admin fee: zero until one is written.
    pub fn read_admin_fee(&self) -> (r: i128)
        ensures
            r == self@.fee(),
    {
        match self.admin_fee {
            Some(fee) => fee,
            None => 0,
        }
    }

    /// Stores `fee` as the admin fee.
    pub fn write_admin_fee(&mut self, fee: &i128)
        requires
            old(self).wf(),
        ensures
            final(self).wf(),
            final(self)@ == (Ledger { admin_fee: Some(*fee), ..old(self)@ }),
    {
        self.admin_fee = Some(*fee);
    }

    /// The fees collected for the admin: zero until written.
    pub fn read_admin_accumulated_fees(&self) -> (r: i128)
        ensures
            r == self@.accumulated_fees(),
    {
        match self.admin_accumulated_fees {
            Some(fees) => fees,
            None => 0,
        }
    }

    /// Stores `amount` as the fees collected for the admin.
    pub fn write_admin_accumulated_fees(&mut self, amount: &i128)
        requires
            old(self).wf(),
        ensures
            final(self).wf(),
            final(self)@ == (Ledger { admin_accumulated_fees: Some(*amount), ..old(self)@ }),
    {
        self.admin_accumulated_fees = Some(*amount);
    }

    /// The funds in custody: zero until written.
    pub fn read_contract_balance(&self) -> (r: i128)
        ensures
            r == self@.balance(),
    {
        match self.contract_balance {
            Some(balance) => balance,
            None => 0,
        }
    }

    /// Stores `amount` as the funds in custody.
    pub fn write_contract_balance(&mut self, amount: &i128)
        requires
            old(self).wf(),
        ensures
            final(self).wf(),
            final(self)@ == (Ledger { contract_balance: Some(*amount), ..old(self)@ }),
    {
        self.contract_balance = Some(*amount);
    }

    /// Whether a car is listed for `owner`.
    pub fn has_car(&self, owner: &Address) -> (r: bool)
        requires
            self.wf(),
        ensures
            r == self@.cars.contains_key(*owner),
    {
        self.cars.has(owner)
    }

    /// The car listed for `owner`.
    pub fn read_car(&self, owner: &Address) -> (r: Result<Car, Error>)
        requires
            self.wf(),
        ensures
            r == (if self@.cars.contains_key(*owner) {
                Ok::<Car, Error>(self@.cars[*owner])
            } else {
                Err(Error::CarNotFound)
            }),
    {
        match self.cars.get(owner) {
            Some(car) => Ok(car),
            None => Err(Error::CarNotFound),
        }
    }

    /// Stores `car` as the car of `owner`.
    pub fn write_car(&mut self, owner: &Address, car: &Car)
        requires
            old(self).wf(),
        ensures
            final(self).wf(),
            final(self)@ == (Ledger { cars: old(self)@.cars.insert(*owner, *car), ..old(self)@ }),
    {
        self.cars.set(*owner, *car);
    }

    /// Deletes the car of `owner`, if one is listed.
    pub fn remove_car(&mut self, owner: &Address)
        requires
            old(self).wf(),
        ensures
            final(self).wf(),
            final(self)@ == (Ledger { cars: old(self)@.cars.remove(*owner), ..old(self)@ }),
    {
        self.cars.remove(owner);
    }

    /// The rental recorded for `renter` and `owner`, if there is one.
    pub fn read_rental(&self, renter: &Address, owner: &Address) -> (r: Option<Rental>)
        requires
            self.wf(),
        ensures
            r == (if self@.rentals.contains_key(RentalKey { renter: *renter, owner: *owner }) {
                Some(self@.rentals[RentalKey { renter: *renter, owner: *owner }])
            } else {
                None
            }),
    {
        self.rentals.get(&RentalKey { renter: *renter, owner: *owner })
    }

    /// Stores `rental` for `renter` and `owner`, in place of an earlier one.
    pub fn write_rental(&mut self, renter: &Address, owner: &Address, rental: &Rental)
        requires
            old(self).wf(),
        ensures
            final(self).wf(),
            final(self)@ == (Ledger {
                rentals: old(self)@.rentals.insert(
                    RentalKey { renter: *renter, owner: *owner },
                    *rental,
                ),
                ..old(self)@
            }),
    {
        self.rentals.set(RentalKey { renter: *renter, owner: *owner }, *rental);
    }
}

} // verus!
