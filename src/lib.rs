//! Lifecycle of a transaction that has been assembled but not yet signed or
//! submitted: signing replaces the payload as a whole, and committing for
//! submission happens at most once per instance.
//!
//! Every operation that changes an instance takes it by exclusive borrow, so
//! a reader never sees a payload halfway through a replacement; holders that
//! share one instance put it behind a lock and take it for one operation at a
//! time. A second commit is reported as `PendingError::DoubleCommit` rather
//! than aborting the process.

pub mod consensus;
pub mod error;
pub mod keys;
pub mod laws;
pub mod pending;
