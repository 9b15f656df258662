//! Local credential protection: an authenticated-encryption envelope for the
//! files that hold sign-in data, the master key kept in the OS keychain, and
//! the records that those files carry.

pub mod cipher;
pub mod cookies;
pub mod encoding;
pub mod envelope;
pub mod keychain;
pub mod secure_store;
pub mod storage;
