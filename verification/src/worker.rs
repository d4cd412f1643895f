//! Worker abstraction: errors, triggers, builders, drivers, handles and the
//! lifecycle decisions of a running worker.

pub mod error;
pub mod trigger;
pub mod lifecycle;
pub mod driver;
pub mod builder;
pub mod handle;
pub mod infallible;
pub mod shutdown;
