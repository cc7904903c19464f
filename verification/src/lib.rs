//! A rent-splitting escrow: several participants each owe a share of the rent,
//! the escrow collects the shares until a deadline, and the landlord is paid
//! once every share is in.
//!
//! The crate is the escrow's state machine. It holds no clock, no storage and
//! no event bus of its own: a caller hands in the ledger's clock reading and
//! the stored record, and takes back the new record and the notifications to
//! send. Every operation either completes or leaves the state as it found it.

pub mod address;
pub mod contract;
pub mod error;
pub mod laws;
pub mod record;

pub use address::Address;
pub use contract::{ContractState, LedgerClock, RentEscrowContract};
pub use error::{ErrorKind, EscrowError};
pub use record::{EscrowData, EscrowEvent, EscrowRecord, EscrowStatus, Participant};
