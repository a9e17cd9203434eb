//! The protocol by which a credential is acquired from the service.
//!
//! Acquiring takes three calls of the service, in this order: make an empty
//! mechanism set, add the Kerberos 5 mechanism to it, acquire the credential
//! for that set. The first call that fails ends the acquisition with its
//! status. The library decides which call comes next and what it is given;
//! the caller performs each call and reports its answer with `step`.

use vstd::prelude::*;
use crate::credential::{Cred, CredView};
use crate::handle::{RawCred, RawName, NULL_ADDRESS};
use crate::status::{check_status, status_of, Error};
use crate::usage::CredUsage;

verus! {

/// Lifetime that asks the service for a credential that does not expire.
pub const GSS_C_INDEFINITE: u32 = 0xffff_ffff;

/// A security mechanism that the service can negotiate.
#[derive(Clone, Copy, Debug, PartialEq, Eq, Structural)]
pub enum Mechanism {
    /// Kerberos 5.
    Krb5,
}

/// What the service's acquire call is given.
#[derive(Clone, Copy, Debug, PartialEq, Eq, Structural)]
pub struct AcquireArgs {
    /// The name to acquire for; the null handle asks for the default identity.
    pub name: RawName,
    /// The lifetime asked for, in seconds, or `GSS_C_INDEFINITE`.
    pub time_req: u32,
    /// The one mechanism in the set of desired mechanisms.
    pub mech: Mechanism,
    /// The service's code of the usage asked for.
    pub usage: i32,
    /// Whether the service is asked to report the mechanisms it granted.
    pub want_actual_mechs: bool,
    /// Whether the service is asked to report the lifetime it granted.
    pub want_time_rec: bool,
}

/// A call of the service that the caller has to perform.
#[derive(Clone, Copy, Debug, PartialEq, Eq, Structural)]
pub enum ServiceCall {
    /// Make an empty mechanism set.
    NewMechSet,
    /// Add this mechanism to the set that the call before made.
    AddMech(Mechanism),
    /// Acquire a credential for the set that the calls before filled.
    AcquireCred(AcquireArgs),
}

/// The answer of the service to a call.
#[derive(Clone, Copy, Debug, PartialEq, Eq, Structural)]
pub struct ServiceReply {
    pub major: u32,
    pub minor: u32,
    /// The credential handle that the call put out. Only the answer to an
    /// acquire call has one; it is not read from any other.
    pub cred: RawCred,
}

/// How far an acquisition has come: the call whose answer it waits for.
#[derive(Clone, Copy, Debug, PartialEq, Eq, Structural)]
pub enum Stage {
    NewMechSet,
    AddMech,
    AcquireCred,
}

/// What an `Acquisition` stands for.
pub struct AcquisitionView {
    pub stage: Stage,
    pub args: AcquireArgs,
}

/// An acquisition under way. It always waits for the answer to one call.
pub struct Acquisition {
    stage: Stage,
    args: AcquireArgs,
}

/// How an acquisition goes on after an answer.
pub enum Next {
    /// With another call.
    Call(Acquisition),
    /// It is over, with this result.
    Done(Result<Cred, Error>),
}

/// What a `Next` stands for.
pub enum NextView {
    Call(AcquisitionView),
    Done(Result<CredView, Error>),
}

/// The name handle that the service is given: the caller's, or the null
/// handle where the caller gave none.
pub open spec fn resolved_name(name: Option<RawName>) -> RawName {
    match name {
        Some(n) => n,
        None => RawName(NULL_ADDRESS),
    }
}

/// The lifetime that the service is given: the caller's, or the indefinite
/// one where the caller gave none.
pub open spec fn resolved_time(time_req: Option<u32>) -> u32 {
    match time_req {
        Some(t) => t,
        None => GSS_C_INDEFINITE,
    }
}

/// What the acquire call is given for a request: the resolved name and
/// lifetime, the Kerberos 5 mechanism, the usage's code, and no wish for any
/// report on what was granted.
pub open spec fn acquire_args(name: Option<RawName>, time_req: Option<u32>, usage: CredUsage)
    -> AcquireArgs {
    AcquireArgs {
        name: resolved_name(name),
        time_req: resolved_time(time_req),
        mech: Mechanism::Krb5,
        usage: usage.spec_code(),
        want_actual_mechs: false,
        want_time_rec: false,
    }
}

impl Stage {
    /// The number of calls that are still to be answered at this stage.
    pub open spec fn calls_left(self) -> nat {
        match self {
            Stage::NewMechSet => 3,
            Stage::AddMech => 2,
            Stage::AcquireCred => 1,
        }
    }
}

impl AcquisitionView {
    /// The state in which every acquisition begins.
    pub open spec fn start(args: AcquireArgs) -> AcquisitionView {
        AcquisitionView { stage: Stage::NewMechSet, args }
    }

    /// The call whose answer the acquisition waits for.
    pub open spec fn pending(self) -> ServiceCall {
        match self.stage {
            Stage::NewMechSet => ServiceCall::NewMechSet,
            Stage::AddMech => ServiceCall::AddMech(self.args.mech),
            Stage::AcquireCred => ServiceCall::AcquireCred(self.args),
        }
    }

    /// How the acquisition goes on after `reply`. A status other than
    /// complete ends it with that status, at any stage. A complete status
    /// leads to the next call, and after the acquire call to a credential
    /// with one holder around the handle that the service put out.
    pub open spec fn step(self, reply: ServiceReply) -> NextView {
        match status_of(reply.major, reply.minor) {
            Err(e) => NextView::Done(Err(e)),
            Ok(_) => match self.stage {
                Stage::NewMechSet => NextView::Call(
                    AcquisitionView { stage: Stage::AddMech, args: self.args },
                ),
                Stage::AddMech => NextView::Call(
                    AcquisitionView { stage: Stage::AcquireCred, args: self.args },
                ),
                Stage::AcquireCred => NextView::Done(Ok(CredView::fresh(reply.cred))),
            },
        }
    }
}

impl View for Acquisition {
    type V = AcquisitionView;

    closed spec fn view(&self) -> AcquisitionView {
        AcquisitionView { stage: self.stage, args: self.args }
    }
}

impl View for Next {
    type V = NextView;

    open spec fn view(&self) -> NextView {
        match *self {
            Next::Call(acq) => NextView::Call(acq@),
            Next::Done(Ok(cred)) => NextView::Done(Ok(cred@)),
            Next::Done(Err(e)) => NextView::Done(Err(e)),
        }
    }
}

impl ServiceReply {
    /// The answer of a call that puts out no credential.
    pub fn status(major: u32, minor: u32) -> (reply: ServiceReply)
        ensures
            reply == (ServiceReply { major, minor, cred: RawCred(NULL_ADDRESS) }),
    {
        ServiceReply { major, minor, cred: RawCred::null() }
    }

    /// The answer of an acquire call.
    pub fn acquired(major: u32, minor: u32, cred: RawCred) -> (reply: ServiceReply)
        ensures
            reply == (ServiceReply { major, minor, cred }),
    {
        ServiceReply { major, minor, cred }
    }
}

impl Cred {
    /// Begins to acquire a credential for `name`, or for the default
    /// identity, that lasts `time_req` seconds, or indefinitely, and serves
    /// `usage`. Nothing can fail yet: the acquisition waits for the answer
    /// to its first call, the making of the mechanism set.
    pub fn acquire(name: Option<RawName>, time_req: Option<u32>, usage: CredUsage) -> (acq:
        Acquisition)
        ensures
            acq@ == AcquisitionView::start(acquire_args(name, time_req, usage)),
    {
        let name = match name {
            Some(n) => n,
            None => RawName::null(),
        };
        let time_req = match time_req {
            Some(t) => t,
            None => GSS_C_INDEFINITE,
        };
        let args = AcquireArgs {
            name,
            time_req,
            mech: Mechanism::Krb5,
            usage: usage.code(),
            want_actual_mechs: false,
            want_time_rec: false,
        };
        Acquisition { stage: Stage::NewMechSet, args }
    }
}

impl Acquisition {
    /// The call that the caller has to perform now.
    pub fn pending(&self) -> (call: ServiceCall)
        ensures
            call == self@.pending(),
    {
        match self.stage {
            Stage::NewMechSet => ServiceCall::NewMechSet,
            Stage::AddMech => ServiceCall::AddMech(self.args.mech),
            Stage::AcquireCred => ServiceCall::AcquireCred(self.args),
        }
    }

    /// Takes the answer to the pending call and says how to go on.
    pub fn step(self, reply: ServiceReply) -> (next: Next)
        ensures
            next@ == self@.step(reply),
    {
        if let Err(e) = check_status(reply.major, reply.minor) {
            return Next::Done(Err(e));
        }
        match self.stage {
            Stage::NewMechSet => Next::Call(Acquisition { stage: Stage::AddMech, args: self.args }),
            Stage::AddMech => Next::Call(
                Acquisition { stage: Stage::AcquireCred, args: self.args },
            ),
            Stage::AcquireCred => Next::Done(Ok(Cred::from_raw(reply.cred))),
        }
    }
}

} // verus!
