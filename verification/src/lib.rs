//! The books of a peer-to-peer car rental: listings, rentals paid into
//! custody, what each owner may withdraw, and the fees collected for the
//! admin.
//!
//! [`RentACarContract`] holds the rules. Every operation is a function of
//! the store, the party that authorized the call and, where tokens move,
//! the token contract's answer; what it answers and what it leaves in the
//! store is given by the matching function on [`Ledger`], the mathematical
//! model of the store. The `laws` module proves what holds of those
//! functions across calls: the funds in custody equal what is owed to the
//! owners plus the collected fees for as long as no car is removed with a
//! balance outstanding, no car is rented twice, and the contract is
//! constructed once.

pub mod address;
pub mod car;
pub mod contract;
pub mod error;
pub mod event;
pub mod fees;
pub mod history;
pub mod laws;
pub mod ledger;
pub mod storage;
mod table;
pub mod transfer;

pub use address::{Address, AddressKind};
pub use car::{Car, CarStatus, Rental, RentalKey};
pub use contract::RentACarContract;
pub use error::Error;
pub use event::Event;
pub use history::Operation;
pub use ledger::{Ledger, Step};
pub use storage::Storage;
pub use transfer::{Party, Transfer};
