//! Court-ordered child support enforcement: the contract's storage, the rules
//! of each entry point, and the laws that every sequence of calls keeps.
//!
//! - `types`: addresses, the configuration, orders, payment records, errors.
//! - `model`: the contract as a state machine over abstract values.
//! - `history`: computations over the payment history.
//! - `contract`: the entry points, each proved to follow `model`.
//! - `laws`: properties spanning several calls, proved over `model`.

pub mod contract;
pub mod history;
pub mod laws;
pub mod model;
pub mod types;

pub use contract::SupportChainContract;
pub use model::{BPS_DENOM, SECONDS_PER_DAY, SECONDS_PER_MONTH};
pub use types::{
    Address, Config, ContractError, DataKey, DefaultAlert, PaymentRecord, PaymentResult, SupportOrder,
};
