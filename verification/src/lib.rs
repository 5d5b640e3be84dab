//! An append-only accountability log.
//!
//! Every record is owned by the identity that created it and lives at an
//! address derived from that identity and the record's timestamp, so one
//! identity can file at most one record per timestamp. Records are written
//! once and never changed or removed.

pub mod address;
pub mod errors;
pub mod instruction;
pub mod laws;
pub mod record;
pub mod store;

pub use crate::errors::CustomError;
pub use crate::instruction::{create_log, CreateLog};
pub use crate::record::LogAccount;
pub use crate::store::LogStore;
