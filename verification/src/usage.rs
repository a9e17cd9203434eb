//! The directions in which a credential may be used.

use vstd::prelude::*;

verus! {

/// Usage code of the service: the credential may initiate and accept.
pub const GSS_C_BOTH: i32 = 0;

/// Usage code of the service: the credential may only initiate.
pub const GSS_C_INITIATE: i32 = 1;

/// Usage code of the service: the credential may only accept.
pub const GSS_C_ACCEPT: i32 = 2;

/// How a credential is going to be used.
#[derive(Clone, Copy, Debug, PartialEq, Eq, Structural)]
pub enum CredUsage {
    /// Only to accept security contexts that a peer initiates.
    Accept,
    /// Only to initiate security contexts.
    Initiate,
    /// Either way.
    Both,
}

impl CredUsage {
    /// The code by which the service knows this usage.
    pub open spec fn spec_code(self) -> i32 {
        match self {
            CredUsage::Both => GSS_C_BOTH,
            CredUsage::Initiate => GSS_C_INITIATE,
            CredUsage::Accept => GSS_C_ACCEPT,
        }
    }

    /// The code by which the service knows this usage.
    #[verifier::when_used_as_spec(spec_code)]
    pub fn code(self) -> (c: i32)
        ensures
            c == self.spec_code(),
    {
        match self {
            CredUsage::Both => GSS_C_BOTH,
            CredUsage::Initiate => GSS_C_INITIATE,
            CredUsage::Accept => GSS_C_ACCEPT,
        }
    }
}

/// Two usages that the service knows by the same code are the same usage.
pub proof fn usage_code_is_injective(a: CredUsage, b: CredUsage)
    requires
        a.spec_code() == b.spec_code(),
    ensures
        a == b,
{
}

} // verus!
