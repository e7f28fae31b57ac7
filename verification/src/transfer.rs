use vstd::prelude::*;
use crate::address::Address;

verus! {

/// One end of a token transfer.
#[derive(Clone, Copy, Debug, PartialEq, Eq, Structural)]
pub enum Party {
    /// The contract's own custodial address.
    Custody,
    /// An outside address.
    Holder(Address),
}

/// A movement of tokens that the token contract has to carry out before the
/// ledger records the operation that asked for it.
#[derive(Clone, Copy, Debug, PartialEq, Eq, Structural)]
pub struct Transfer {
    pub from: Party,
    pub to: Party,
    pub amount: i128,
}

impl Transfer {
    /// Tokens that `from` pays into custody.
    pub open spec fn deposit(from: Address, amount: i128) -> Transfer {
        Transfer { from: Party::Holder(from), to: Party::Custody, amount }
    }

    /// Tokens that leave custody for `to`.
    pub open spec fn release(to: Address, amount: i128) -> Transfer {
        Transfer { from: Party::Custody, to: Party::Holder(to), amount }
    }
}

} // verus!
