use vstd::prelude::*;
use crate::address::Address;
use crate::car::{CarStatus, RentalKey};
use crate::error::Error;
use crate::event::Event;
use crate::fees::{debited, owner_deposit_of};
use crate::history::{removes_car_of, Operation};
use crate::ledger::{lemma_total_owed_insert, lemma_total_owed_remove, total_owed, Ledger};
use crate::transfer::Transfer;

verus! {

/// No operation makes the cars infinitely many.
pub proof fn law_cars_stay_finite(s: Ledger, op: Operation)
    requires
        s.cars.dom().finite(),
    ensures
        s.apply(op).cars.dom().finite(),
{
}

/// One operation keeps the books balanced: if the funds in custody equal
/// what is owed to the owners plus the collected fees before it, they do
/// after it, whether it succeeds or fails. The one exception is the removal
/// of a car whose owner still has a balance.
pub proof fn law_conservation_step(s: Ledger, op: Operation)
    requires
        s.cars.dom().finite(),
        s.conserved(),
        !s.orphans_funds(op),
    ensures
        s.apply(op).conserved(),
{
    match op {
        Operation::Construct { admin, token } => {},
        Operation::AddCar { caller, owner, price_per_day } => {
            if s.add_car(caller, owner, price_per_day).outcome is Ok {
                lemma_total_owed_insert(s.cars, owner, s.apply(op).cars[owner]);
            }
        },
        Operation::RemoveCar { caller, owner } => {
            if s.remove_car(caller, owner).outcome is Ok {
                lemma_total_owed_remove(s.cars, owner);
            }
        },
        Operation::Rental { caller, renter, owner, total_days_to_rent, amount, settled } => {
            if s.rental(caller, renter, owner, total_days_to_rent, amount, settled).outcome is Ok {
                lemma_total_owed_insert(s.cars, owner, s.apply(op).cars[owner]);
            }
        },
        Operation::PayoutOwner { caller, owner, amount, settled } => {
            if s.payout_owner(caller, owner, amount, settled).outcome is Ok {
                lemma_total_owed_insert(s.cars, owner, s.apply(op).cars[owner]);
            }
        },
        Operation::SetAdminFee { caller, admin, fee } => {},
        Operation::WithdrawAdminFees { caller, admin, amount, settled } => {},
    }
}

/// Conservation: starting from the empty ledger, after every operation of
/// any sequence the funds in custody equal what is owed to the owners plus
/// the collected fees, as long as no car is removed while its owner still
/// has a balance.
pub proof fn law_conservation(ops: Seq<Operation>)
    requires
        forall|i: int|
            0 <= i < ops.len() ==> !(#[trigger] Ledger::initial().run(ops.take(i))).orphans_funds(
                ops[i],
            ),
    ensures
        forall|i: int| 0 <= i <= ops.len() ==> (#[trigger] Ledger::initial().run(ops.take(i))).conserved(),
        Ledger::initial().run(ops).conserved(),
        Ledger::initial().run(ops).cars.dom().finite(),
    decreases ops.len(),
{
    let start = Ledger::initial();
    if ops.len() == 0 {
        assert(total_owed(start.cars) == 0);
        assert forall|i: int| 0 <= i <= ops.len() implies (#[trigger] start.run(
            ops.take(i),
        )).conserved() by {
            assert(ops.take(i) =~= ops);
        }
    } else {
        let before = ops.drop_last();
        assert forall|i: int| 0 <= i < before.len() implies !(#[trigger] start.run(
            before.take(i),
        )).orphans_funds(before[i]) by {
            assert(before.take(i) =~= ops.take(i));
        }
        law_conservation(before);
        assert(ops.take(ops.len() - 1) =~= before);
        law_conservation_step(start.run(before), ops.last());
        law_cars_stay_finite(start.run(before), ops.last());
        assert forall|i: int| 0 <= i <= ops.len() implies (#[trigger] start.run(
            ops.take(i),
        )).conserved() by {
            if i < ops.len() {
                assert(ops.take(i) =~= before.take(i));
            } else {
                assert(ops.take(i) =~= ops);
            }
        }
    }
}

/// No operation makes an amount negative: the fee, the collected fees, the
/// funds in custody and every owner's balance stay at or above zero.
pub proof fn law_amounts_stay_non_negative(s: Ledger, op: Operation)
    requires
        s.sound(),
    ensures
        s.apply(op).sound(),
{
}

/// A car that is not available cannot be rented: the request fails, with
/// `CarAlreadyRented` where it is otherwise in order, and changes nothing.
pub proof fn law_unavailable_car_is_not_rented(
    s: Ledger,
    caller: Address,
    renter: Address,
    owner: Address,
    total_days_to_rent: u32,
    amount: i128,
    settled: Result<(), Error>,
)
    requires
        s.cars.contains_key(owner),
        s.cars[owner].car_status != CarStatus::Available,
    ensures
        s.rental(caller, renter, owner, total_days_to_rent, amount, settled).outcome is Err,
        s.rental(caller, renter, owner, total_days_to_rent, amount, settled).next == s,
        caller == renter && amount >= 0 && total_days_to_rent != 0 && renter != owner ==> s.rental(
            caller,
            renter,
            owner,
            total_days_to_rent,
            amount,
            settled,
        ).outcome == Err::<Event, Error>(Error::CarAlreadyRented),
{
}

/// A car that is not available stays as it is until it is removed: no other
/// operation changes its state.
pub proof fn law_rented_car_stays_rented(s: Ledger, owner: Address, ops: Seq<Operation>)
    requires
        s.cars.contains_key(owner),
        s.cars[owner].car_status != CarStatus::Available,
        forall|i: int| 0 <= i < ops.len() ==> !removes_car_of(#[trigger] ops[i], owner),
    ensures
        s.run(ops).cars.contains_key(owner),
        s.run(ops).cars[owner].car_status == s.cars[owner].car_status,
    decreases ops.len(),
{
    if ops.len() > 0 {
        law_rented_car_stays_rented(s, owner, ops.drop_last());
        assert(!removes_car_of(ops[ops.len() - 1], owner));
    }
}

/// No double rent: once a car is rented, a second rental of it fails,
/// however many other operations come in between, unless the car was
/// removed meanwhile. Where the second request is otherwise in order, the
/// failure is `CarAlreadyRented`.
pub proof fn law_no_double_rent(
    s: Ledger,
    caller: Address,
    renter: Address,
    owner: Address,
    total_days_to_rent: u32,
    amount: i128,
    settled: Result<(), Error>,
    between: Seq<Operation>,
    second_caller: Address,
    second_renter: Address,
    second_days: u32,
    second_amount: i128,
    second_settled: Result<(), Error>,
)
    requires
        s.rental(caller, renter, owner, total_days_to_rent, amount, settled).outcome is Ok,
        forall|i: int| 0 <= i < between.len() ==> !removes_car_of(#[trigger] between[i], owner),
    ensures
        ({
            let later = s.rental(
                caller,
                renter,
                owner,
                total_days_to_rent,
                amount,
                settled,
            ).next.run(between);
            let second = later.rental(
                second_caller,
                second_renter,
                owner,
                second_days,
                second_amount,
                second_settled,
            );
            &&& second.outcome is Err
            &&& second.next == later
            &&& second_caller == second_renter && second_amount >= 0 && second_days != 0
                && second_renter != owner ==> second.outcome == Err::<Event, Error>(
                Error::CarAlreadyRented,
            )
        }),
{
    let rented = s.rental(caller, renter, owner, total_days_to_rent, amount, settled).next;
    law_rented_car_stays_rented(rented, owner, between);
    law_unavailable_car_is_not_rented(
        rented.run(between),
        second_caller,
        second_renter,
        owner,
        second_days,
        second_amount,
        second_settled,
    );
}

/// Nobody rents their own car: such a request fails on every ledger and
/// with every other argument, and changes nothing.
pub proof fn law_self_rental_fails(
    s: Ledger,
    caller: Address,
    party: Address,
    total_days_to_rent: u32,
    amount: i128,
    settled: Result<(), Error>,
)
    ensures
        s.rental(caller, party, party, total_days_to_rent, amount, settled).outcome is Err,
        s.rental(caller, party, party, total_days_to_rent, amount, settled).next == s,
        s.check_rental(caller, party, party, total_days_to_rent, amount) is Err,
{
}

/// A request to rent one's own car that the renter authorized, with an
/// amount that is not negative and a duration that is not zero, fails with
/// `SelfRentalNotAllowed`, whatever the ledger holds.
pub proof fn law_self_rental_rejected(
    s: Ledger,
    party: Address,
    total_days_to_rent: u32,
    amount: i128,
    settled: Result<(), Error>,
)
    requires
        amount >= 0,
        total_days_to_rent != 0,
    ensures
        s.rental(party, party, party, total_days_to_rent, amount, settled).outcome == Err::<
            Event,
            Error,
        >(Error::SelfRentalNotAllowed),
        s.check_rental(party, party, party, total_days_to_rent, amount) == Err::<Transfer, Error>(
            Error::SelfRentalNotAllowed,
        ),
{
}

/// The owner's share of a payment is never negative: it is the payment less
/// the fee where that is zero or more, and an error where the payment lies
/// below the fee.
pub proof fn law_owner_deposit_is_never_negative(amount: i128, admin_fee: i128)
    ensures
        owner_deposit_of(amount, admin_fee) matches Ok(deposit) ==> deposit >= 0 && deposit
            == amount - admin_fee,
        amount < admin_fee ==> owner_deposit_of(amount, admin_fee) == Err::<i128, Error>(
            Error::AmountMustBePositive,
        ) || owner_deposit_of(amount, admin_fee) == Err::<i128, Error>(Error::UnderflowError),
        amount >= 0 && admin_fee >= 0 && amount < admin_fee ==> owner_deposit_of(amount, admin_fee)
            == Err::<i128, Error>(Error::AmountMustBePositive),
{
}

/// A rental never books a negative deposit. Where it succeeds, the rental
/// record holds the payment less the fee, which is zero or more, and the
/// owner's balance has grown by exactly that. Where the payment lies below
/// the fee, the rental fails and changes nothing.
pub proof fn law_rental_books_no_negative_deposit(
    s: Ledger,
    caller: Address,
    renter: Address,
    owner: Address,
    total_days_to_rent: u32,
    amount: i128,
    settled: Result<(), Error>,
)
    ensures
        ({
            let step = s.rental(caller, renter, owner, total_days_to_rent, amount, settled);
            let key = RentalKey { renter, owner };
            &&& step.outcome is Ok ==> {
                &&& step.next.rentals.contains_key(key)
                &&& step.next.rentals[key].amount == amount - s.fee()
                &&& step.next.rentals[key].amount >= 0
                &&& step.next.cars[owner].available_to_withdraw
                    == s.cars[owner].available_to_withdraw + (amount - s.fee())
            }
            &&& amount < s.fee() ==> step.outcome is Err && step.next == s
            &&& caller == renter && 0 <= amount < s.fee() && total_days_to_rent != 0 && renter != owner
                && s.cars.contains_key(owner) && s.cars[owner].car_status == CarStatus::Available
                ==> step.outcome == Err::<Event, Error>(Error::AmountMustBePositive)
        }),
{
}

/// Payout bound: a payout moves exactly the amount asked for, and only where
/// that amount exceeds neither the owner's balance nor the funds in
/// custody, so that taking it off either cannot underflow. A request above
/// either fails and changes nothing.
pub proof fn law_payout_bound(
    s: Ledger,
    caller: Address,
    owner: Address,
    amount: i128,
    settled: Result<(), Error>,
)
    ensures
        s.check_payout(caller, owner, amount) matches Ok(transfer) ==> {
            &&& transfer == Transfer::release(owner, amount)
            &&& s.cars.contains_key(owner)
            &&& 0 < transfer.amount <= s.cars[owner].available_to_withdraw
            &&& transfer.amount <= s.balance()
            &&& debited(s.cars[owner].available_to_withdraw, amount) is Ok
            &&& debited(s.balance(), amount) is Ok
        },
        s.payout_owner(caller, owner, amount, settled).outcome is Ok ==> s.check_payout(
            caller,
            owner,
            amount,
        ) is Ok,
        !s.cars.contains_key(owner) || amount > s.cars[owner].available_to_withdraw || amount
            > s.balance() ==> {
            &&& s.check_payout(caller, owner, amount) is Err
            &&& s.payout_owner(caller, owner, amount, settled).outcome is Err
            &&& s.payout_owner(caller, owner, amount, settled).next == s
        },
{
}

/// The same bound holds for the admin's fees: a withdrawal moves exactly the
/// amount asked for, and only where that amount exceeds neither the
/// collected fees nor the funds in custody.
pub proof fn law_withdrawal_bound(
    s: Ledger,
    caller: Address,
    admin: Address,
    amount: i128,
    settled: Result<(), Error>,
)
    ensures
        s.check_withdrawal(caller, admin, amount) matches Ok(transfer) ==> {
            &&& transfer == Transfer::release(admin, amount)
            &&& 0 < transfer.amount <= s.accumulated_fees()
            &&& transfer.amount <= s.balance()
            &&& debited(s.accumulated_fees(), amount) is Ok
            &&& debited(s.balance(), amount) is Ok
        },
        amount > s.accumulated_fees() || amount > s.balance() ==> {
            &&& s.withdraw_admin_fees(caller, admin, amount, settled).outcome is Err
            &&& s.withdraw_admin_fees(caller, admin, amount, settled).next == s
        },
{
}

/// The admin fee reads zero on the empty ledger, reads what was last set
/// after a successful `set_admin_fee`, and is changed by nothing else.
pub proof fn law_admin_fee_reads_last_write(s: Ledger, op: Operation)
    ensures
        Ledger::initial().fee() == 0,
        op matches Operation::SetAdminFee { fee, .. } ==> (s.accepts(op) ==> s.apply(op).fee()
            == fee),
        !(op is SetAdminFee) || !s.accepts(op) ==> s.apply(op).fee() == s.fee(),
{
}

/// The collected fees read zero on the empty ledger, grow by the fee in
/// force with each successful rental, shrink by the amount of each
/// successful withdrawal, and are changed by nothing else.
pub proof fn law_accumulated_fees_read_last_write(s: Ledger, op: Operation)
    ensures
        Ledger::initial().accumulated_fees() == 0,
        op is Rental && s.accepts(op) ==> s.apply(op).accumulated_fees() == s.accumulated_fees()
            + s.fee(),
        op matches Operation::WithdrawAdminFees { amount, .. } ==> (s.accepts(op) ==> s.apply(
            op,
        ).accumulated_fees() == s.accumulated_fees() - amount),
        !(op is Rental) && !(op is WithdrawAdminFees) || !s.accepts(op) ==> s.apply(
            op,
        ).accumulated_fees() == s.accumulated_fees(),
{
}

/// Once the admin and the token are set, no operation changes them.
pub proof fn law_admin_and_token_are_set_once(s: Ledger, ops: Seq<Operation>)
    requires
        s.admin is Some,
    ensures
        s.run(ops).admin == s.admin,
        s.run(ops).token == s.token,
    decreases ops.len(),
{
    if ops.len() > 0 {
        law_admin_and_token_are_set_once(s, ops.drop_last());
    }
}

/// Re-initialization guard: after a successful construction, and whatever
/// operations follow it, a second construction fails and leaves the admin
/// and the token of the first in place. Where the second call names two
/// different addresses, the failure is `ContractInitialized`.
pub proof fn law_constructed_once(
    s: Ledger,
    admin: Address,
    token: Address,
    between: Seq<Operation>,
    second_admin: Address,
    second_token: Address,
)
    requires
        s.construct(admin, token).outcome is Ok,
    ensures
        ({
            let later = s.construct(admin, token).next.run(between);
            let second = later.construct(second_admin, second_token);
            &&& second.outcome is Err
            &&& second.next == later
            &&& second.next.admin == Some(admin)
            &&& second.next.token == Some(token)
            &&& second_admin != second_token ==> second.outcome == Err::<
                Event,
                Error,
            >(Error::ContractInitialized)
        }),
{
    law_admin_and_token_are_set_once(s.construct(admin, token).next, between);
}

} // verus!
