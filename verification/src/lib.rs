//! A token-vesting ledger.
//!
//! A company registers a vesting program with a treasury, gives each
//! employee a linear schedule with a cliff, and employees claim what has
//! vested and was not yet withdrawn. Every record stands at an address
//! derived from seeds, and every instruction derives the addresses again
//! before it trusts a record.
//!
//! The ledger decides; it moves no tokens and keeps no state of its own.
//! Each instruction takes the records it works on, and a claim returns the
//! transfer that the caller is to make.

pub mod address;
pub mod claim;
pub mod employee;
pub mod error;
pub mod laws;
pub mod registry;

pub use address::Address;
pub use claim::{checked_claim_token, claim_token, ClaimTokens, TransferChecked};
pub use employee::{create_employee_vesting, CreateEmployeeAccount, EmployeeAccount};
pub use error::ErrorCode;
pub use registry::{create_vesting_account, CreateVestingAccount, TokenAccount, VestingAccount};
