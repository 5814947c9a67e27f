//! A counter record for a ledger-resident contract: a signed 8-bit value, the
//! account that owns the record, and a ticket count.

pub mod counter;
pub mod decimal;
pub mod messages;
pub mod model;

pub use counter::{Counter, InitError};
pub use model::CounterView;
