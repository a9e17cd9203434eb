//! Lifecycle of GSS-API credentials: the status mapping, the protocol by
//! which a credential is acquired, and the accounting of its holders.
//!
//! The library makes no call of the service. It decides which call comes
//! next and what a call's answer leads to; whoever uses it performs the
//! calls.

pub mod acquire;
pub mod credential;
pub mod handle;
pub mod holders;
pub mod service;
pub mod status;
pub mod usage;

pub use acquire::{Acquisition, Next, ServiceCall, ServiceReply};
pub use credential::{Cred, Dropped};
pub use handle::{RawCred, RawName};
pub use status::Error;
pub use usage::CredUsage;
