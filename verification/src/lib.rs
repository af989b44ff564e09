//! A small library around one piece of logic: the user enters a Bitcoin
//! extended public key, the library decides whether it is structurally valid
//! and, when it is, derives the SHA-256 digest of the raw entry text as
//! lowercase hexadecimal. A state machine ties the two together and tells an
//! unverified driver which effect, if any, to perform.

pub mod hashing;
pub mod state;
pub mod validation;
