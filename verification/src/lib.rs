//! Bootstrap core of an ACME client: directory discovery, the account key,
//! signed request envelopes and the bounded retry policy.
//!
//! The library decides and computes; it performs no network or disk access.
//! Each exchange with the authority is a small state machine that hands out
//! the next request and takes the response back:
//!
//! - [`dir`]: the directory of an authority and the fetch of a nonce;
//! - [`account`]: the bootstrap of an account, from the key to the
//!   confirmed account;
//! - [`retry`]: the rule by which a failed attempt is retried or not;
//! - [`jws`]: the signed envelope of a request;
//! - [`key`]: the account key;
//! - [`api`], [`json`], [`codec`]: the documents and encodings of the
//!   protocol;
//! - [`http`], [`persist`], [`error`]: the plain values that pass between
//!   the library, the transport and the store.

pub mod account;
pub mod api;
pub mod codec;
pub mod dir;
pub mod error;
pub mod http;
pub mod json;
pub mod jws;
pub mod key;
pub mod persist;
pub mod retry;

pub use account::Account;
pub use dir::{Directory, DirectoryUrl};
pub use error::Error;
