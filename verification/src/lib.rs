//! Accounting core of a money market: a fixed-point ledger, an exchange-rate
//! calculator, a deposit/redeem engine, an interest-accrual engine and an
//! epoch reconciler, each with a verified contract.

pub mod decimal;
pub mod errors;
pub mod state;
pub mod exchange;
pub mod interest;
pub mod market;
pub mod epoch;
pub mod query;
