//! What the operations promise, said of what goes into a call and what comes
//! out of it: which results a call can have, which calls are allowed, and how
//! the results of two calls are related.
//!
//! Nothing here is needed by the operations themselves. A promise speaks of the
//! bytes and texts of its arguments and results, and of what the outside crates
//! are trusted to compute, but not of the functions by which the contracts
//! describe a whole operation.

pub mod backup;
pub mod cipher;
pub mod envelope;
pub mod errors;
pub mod need;
pub mod restore;
pub mod round_trip;
pub mod server;
pub mod stock;
pub mod texts;
