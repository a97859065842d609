//! Validation and forwarding in front of the Syrup lending program.
//!
//! A request names a bundle of accounts. Before anything is handed to Syrup the
//! bundle is held against a fixed table of relationship rules: every account in
//! a sensitive slot must be the one that its parent record points at, and the
//! depositor's own token account must belong to the signing caller. A bundle
//! that passes is turned, slot for slot, into the call that Syrup expects; the
//! answer that comes back is returned as it is.
//!
//! The crate holds no account state of its own and performs no invocation
//! itself: the handlers take the function that reaches Syrup as an argument.

pub mod accounts;
pub mod address;
pub mod deposit;
pub mod error;
pub mod initialize;
pub mod rules;
pub mod syrup;

pub use accounts::{Account, Lender, Pool, Signer, TokenAccount, UncheckedAccount};
pub use address::Address;
pub use deposit::{syrup_deposit, CegaWrapperSyrupDeposit};
pub use error::{CallFailure, HandlerError};
pub use initialize::{sryup_deposit_init, CegaWrapperSyrupDepositInitialize};
pub use rules::{ConstraintViolation, Rule};
pub use syrup::{
    AccountMeta, LenderDeposit, LenderDepositCall, LenderInitialize, LenderInitializeCall,
};
