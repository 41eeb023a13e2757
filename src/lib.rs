//! Payment-link records kept in a key-addressed account store.
//!
//! Every user owns one profile record, found at an address derived from the
//! user's key, which counts the payment links created so far. Each payment link
//! lives at an address derived from the owner's key and its index.

pub mod address;
pub mod key;
pub mod state;
pub mod store;
pub mod program;
pub mod laws;
