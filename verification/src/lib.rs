//! Search engine for vanity CREATE2 deployment addresses.
//!
//! The library derives the address a factory contract gives to a salt,
//! tests its hexadecimal form against a prefix and a suffix, splits the
//! nonce space among workers and walks a range of nonces for the first match.

pub mod keccak;
pub mod address;
pub mod hextext;
pub mod pattern;
pub mod salt;
pub mod partition;
pub mod shared;
pub mod search;
pub mod coordinator;
pub mod progress;
pub mod input;
