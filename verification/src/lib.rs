//! Fee policies for wallet transactions: how a policy is written as text, read
//! back from text, and applied to a transaction under construction.

pub mod amount;
pub mod builder;
pub mod decimal;
pub mod fee_spec;
pub mod rate;
pub mod text;

pub use crate::amount::{AmountError, Unit};
pub use crate::builder::{FeeBuilder, FeePolicy};
pub use crate::fee_spec::{FeeSpec, ParseError};
