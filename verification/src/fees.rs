use vstd::prelude::*;
use crate::error::Error;

verus! {

/// Whether `v` can be held in a signed 128-bit amount.
pub open spec fn fits(v: int) -> bool {
    i128::MIN <= v <= i128::MAX
}

/// The owner's share of a rental payment: what the renter paid less the admin
/// fee. A difference that cannot be represented is an underflow; one below
/// zero means that the payment does not cover the fee.
pub open spec fn owner_deposit_of(amount: i128, admin_fee: i128) -> Result<i128, Error> {
    if !fits(amount - admin_fee) {
        Err(Error::UnderflowError)
    } else if amount - admin_fee < 0 {
        Err(Error::AmountMustBePositive)
    } else {
        Ok((amount - admin_fee) as i128)
    }
}

/// `balance + amount`, or an overflow.
pub open spec fn credited(balance: i128, amount: i128) -> Result<i128, Error> {
    if fits(balance + amount) {
        Ok((balance + amount) as i128)
    } else {
        Err(Error::OverflowError)
    }
}

/// `balance - amount`, or an underflow.
pub open spec fn debited(balance: i128, amount: i128) -> Result<i128, Error> {
    if fits(balance - amount) {
        Ok((balance - amount) as i128)
    } else {
        Err(Error::UnderflowError)
    }
}

/// Splits the admin fee off a rental payment and returns the owner's deposit.
pub fn owner_deposit(amount: i128, admin_fee: i128) -> (r: Result<i128, Error>)
    ensures
        r == owner_deposit_of(amount, admin_fee),
{
    match amount.checked_sub(admin_fee) {
        None => Err(Error::UnderflowError),
        Some(deposit) => {
            if deposit < 0 {
                Err(Error::AmountMustBePositive)
            } else {
                Ok(deposit)
            }
        },
    }
}

/// Adds `amount` to `balance` with an overflow check.
pub fn credit(balance: i128, amount: i128) -> (r: Result<i128, Error>)
    ensures
        r == credited(balance, amount),
{
    match balance.checked_add(amount) {
        Some(sum) => Ok(sum),
        None => Err(Error::OverflowError),
    }
}

/// Takes `amount` off `balance` with an underflow check.
pub fn debit(balance: i128, amount: i128) -> (r: Result<i128, Error>)
    ensures
        r == debited(balance, amount),
{
    match balance.checked_sub(amount) {
        Some(rest) => Ok(rest),
        None => Err(Error::UnderflowError),
    }
}

} // verus!
