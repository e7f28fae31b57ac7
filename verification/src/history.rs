use vstd::prelude::*;
use crate::address::Address;
use crate::error::Error;
use crate::ledger::Ledger;

verus! {

/// One call of a state-changing operation, with everything it was given.
pub enum Operation {
    Construct { admin: Address, token: Address },
    AddCar { caller: Address, owner: Address, price_per_day: i128 },
    RemoveCar { caller: Address, owner: Address },
    Rental {
        caller: Address,
        renter: Address,
        owner: Address,
        total_days_to_rent: u32,
        amount: i128,
        settled: Result<(), Error>,
    },
    PayoutOwner { caller: Address, owner: Address, amount: i128, settled: Result<(), Error> },
    SetAdminFee { caller: Address, admin: Address, fee: i128 },
    WithdrawAdminFees { caller: Address, admin: Address, amount: i128, settled: Result<(), Error> },
}

impl Ledger {
    /// The ledger after `op`: changed as the operation says where it
    /// succeeds, untouched where it fails.
    pub open spec fn apply(self, op: Operation) -> Ledger {
        match op {
            Operation::Construct { admin, token } => self.construct(admin, token).next,
            Operation::AddCar { caller, owner, price_per_day } => self.add_car(
                caller,
                owner,
                price_per_day,
            ).next,
            Operation::RemoveCar { caller, owner } => self.remove_car(caller, owner).next,
            Operation::Rental { caller, renter, owner, total_days_to_rent, amount, settled } =>
                self.rental(caller, renter, owner, total_days_to_rent, amount, settled).next,
            Operation::PayoutOwner { caller, owner, amount, settled } => self.payout_owner(
                caller,
                owner,
                amount,
                settled,
            ).next,
            Operation::SetAdminFee { caller, admin, fee } => self.set_admin_fee(
                caller,
                admin,
                fee,
            ).next,
            Operation::WithdrawAdminFees { caller, admin, amount, settled } =>
                self.withdraw_admin_fees(caller, admin, amount, settled).next,
        }
    }

    /// Whether `op` succeeds on this ledger.
    pub open spec fn accepts(self, op: Operation) -> bool {
        match op {
            Operation::Construct { admin, token } => self.construct(admin, token).outcome is Ok,
            Operation::AddCar { caller, owner, price_per_day } => self.add_car(
                caller,
                owner,
                price_per_day,
            ).outcome is Ok,
            Operation::RemoveCar { caller, owner } => self.remove_car(caller, owner).outcome is Ok,
            Operation::Rental { caller, renter, owner, total_days_to_rent, amount, settled } =>
                self.rental(
                    caller,
                    renter,
                    owner,
                    total_days_to_rent,
                    amount,
                    settled,
                ).outcome is Ok,
            Operation::PayoutOwner { caller, owner, amount, settled } => self.payout_owner(
                caller,
                owner,
                amount,
                settled,
            ).outcome is Ok,
            Operation::SetAdminFee { caller, admin, fee } => self.set_admin_fee(
                caller,
                admin,
                fee,
            ).outcome is Ok,
            Operation::WithdrawAdminFees { caller, admin, amount, settled } =>
                self.withdraw_admin_fees(caller, admin, amount, settled).outcome is Ok,
        }
    }

    /// The ledger after all of `ops`, one after the other.
    pub open spec fn run(self, ops: Seq<Operation>) -> Ledger
        decreases ops.len(),
    {
        if ops.len() == 0 {
            self
        } else {
            self.run(ops.drop_last()).apply(ops.last())
        }
    }

    /// Whether `op` deletes a car whose owner still has a balance to
    /// withdraw. Such a removal is allowed, and the balance is then owed to
    /// nobody.
    pub open spec fn orphans_funds(self, op: Operation) -> bool {
        match op {
            Operation::RemoveCar { caller, owner } => {
                &&& self.remove_car(caller, owner).outcome is Ok
                &&& self.cars[owner].available_to_withdraw != 0
            },
            _ => false,
        }
    }

    /// No amount that the ledger keeps is negative, and the cars are
    /// finitely many.
    pub open spec fn sound(self) -> bool {
        &&& self.cars.dom().finite()
        &&& self.fee() >= 0
        &&& self.accumulated_fees() >= 0
        &&& self.balance() >= 0
        &&& forall|owner: Address| #[trigger]
            self.cars.contains_key(owner) ==> self.cars[owner].available_to_withdraw >= 0
    }
}

/// Whether `op` is a call to remove the car of `owner`.
pub open spec fn removes_car_of(op: Operation, owner: Address) -> bool {
    op matches Operation::RemoveCar { owner: removed, .. } && removed == owner
}

} // verus!
