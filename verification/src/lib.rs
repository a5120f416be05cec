//! Typed account handles for instruction processing.
//!
//! An instruction arrives with an ordered list of account entries. Each
//! handle type claims the entry at the front of that list, applies its own
//! validation rule, and can later describe itself again as account
//! metadata or as a list of entries for a nested invocation.
//!
//! * [`entry`] holds the entry record, the claim errors and the outside
//!   types that the handles pass on.
//! * [`claim`] states the claiming and metadata rules over plain values.
//! * [`signer`] is the handle that demands a signature.
//! * [`unchecked_account`] is the handle that checks nothing.
//! * [`laws`] proves what the rules imply.

pub mod claim;
pub mod entry;
pub mod laws;
pub mod signer;
pub mod unchecked_account;
