//! Native handles of the service, carried as plain addresses.
//!
//! The library never looks behind a handle: it only hands it on, and knows
//! the one address that stands for "no object".

use vstd::prelude::*;

verus! {

/// Address that stands for the absence of a native object.
pub const NULL_ADDRESS: usize = 0;

/// The service's handle of a credential.
#[derive(Clone, Copy, Debug, PartialEq, Eq, Structural)]
pub struct RawCred(pub usize);

/// The service's handle of a principal name.
#[derive(Clone, Copy, Debug, PartialEq, Eq, Structural)]
pub struct RawName(pub usize);

impl RawCred {
    /// The handle that refers to no credential.
    pub fn null() -> (h: RawCred)
        ensures
            h == RawCred(NULL_ADDRESS),
    {
        RawCred(NULL_ADDRESS)
    }
}

impl RawName {
    /// The handle that refers to no name: the service then picks the
    /// default identity.
    pub fn null() -> (h: RawName)
        ensures
            h == RawName(NULL_ADDRESS),
    {
        RawName(NULL_ADDRESS)
    }
}

} // verus!
