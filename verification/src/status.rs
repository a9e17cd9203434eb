//! The two-part status that every call of the GSS-API service returns.

use vstd::prelude::*;

verus! {

/// Major status of a call that completed without error.
pub const GSS_S_COMPLETE: u32 = 0;

/// A failed call of the service: the major status it returned, which is not
/// `GSS_S_COMPLETE`, and the mechanism-specific minor status beside it.
#[derive(Clone, Copy, Debug, PartialEq, Eq, Structural)]
pub struct Error {
    pub major: u32,
    pub minor: u32,
}

/// Whether a major status reports success. Every other value is a failure:
/// no status is taken for a partial success.
pub open spec fn is_complete(major: u32) -> bool {
    major == GSS_S_COMPLETE
}

/// What a status pair means: success, or the failure that carries both codes.
pub open spec fn status_of(major: u32, minor: u32) -> Result<(), Error> {
    if is_complete(major) {
        Ok(())
    } else {
        Err(Error { major, minor })
    }
}

/// Maps the status pair of a service call to a result.
pub fn check_status(major: u32, minor: u32) -> (res: Result<(), Error>)
    ensures
        res == status_of(major, minor),
        res.is_ok() <==> major == GSS_S_COMPLETE,
        res matches Err(e) ==> e.major == major && e.minor == minor,
{
    if major == GSS_S_COMPLETE {
        Ok(())
    } else {
        Err(Error { major, minor })
    }
}

} // verus!
