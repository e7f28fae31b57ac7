use vstd::prelude::*;

verus! {

/// Every way an operation of the ledger can fail.
#[derive(Clone, Copy, Debug, PartialEq, Eq, Structural)]
pub enum Error {
    /// No admin is stored, or the admin named in the call is not the stored one.
    AdminNotFound,
    /// The party that the operation answers to did not authorize the call.
    AuthorizationRequired,
    AmountMustBePositive,
    RentalDurationCannotBeZero,
    SelfRentalNotAllowed,
    CarAlreadyExist,
    CarAlreadyRented,
    CarNotFound,
    AdminTokenConflict,
    ContractInitialized,
    OverflowError,
    UnderflowError,
    /// The amount exceeds the balance recorded for the party that asks.
    InsufficientBalance,
    /// The amount exceeds all the funds that the contract holds.
    BalanceNotAvailableForAmountRequested,
}

} // verus!
