//! Acquisitions played against a service, and what holds of all of them.
//!
//! A service is taken here for what it answers to each call. An acquisition
//! asks each call at most once, so this says all that a service can do to it.

use vstd::prelude::*;
use crate::acquire::{
    acquire_args, AcquireArgs, AcquisitionView, Mechanism, NextView, ServiceCall, ServiceReply,
    Stage, GSS_C_INDEFINITE,
};
use crate::credential::CredView;
use crate::handle::{RawName, NULL_ADDRESS};
use crate::status::{is_complete, status_of, Error};
use crate::usage::CredUsage;

verus! {

/// An acquisition that has run to its end: the calls that the service got,
/// in their order, and the result.
pub struct Run {
    pub calls: Seq<ServiceCall>,
    pub outcome: Result<CredView, Error>,
}

/// What the answer to the last call of an acquisition makes of it.
pub open spec fn outcome_of(reply: ServiceReply) -> Result<CredView, Error> {
    match status_of(reply.major, reply.minor) {
        Ok(_) => Ok(CredView::fresh(reply.cred)),
        Err(e) => Err(e),
    }
}

/// Runs an acquisition from `acq` on: performs the pending call, steps with
/// the answer, and so on until the acquisition is over.
pub open spec fn run_from(acq: AcquisitionView, service: spec_fn(ServiceCall) -> ServiceReply)
    -> Run
    decreases acq.stage.calls_left(),
{
    let call = acq.pending();
    match acq.step(service(call)) {
        NextView::Done(outcome) => Run { calls: seq![call], outcome },
        NextView::Call(next) => {
            let rest = run_from(next, service);
            Run { calls: seq![call] + rest.calls, outcome: rest.outcome }
        },
    }
}

/// Runs a whole acquisition for a request against `service`.
pub open spec fn run(
    name: Option<RawName>,
    time_req: Option<u32>,
    usage: CredUsage,
    service: spec_fn(ServiceCall) -> ServiceReply,
) -> Run {
    run_from(AcquisitionView::start(acquire_args(name, time_req, usage)), service)
}

/// The three calls of an acquisition that nothing stops.
pub open spec fn all_calls(args: AcquireArgs) -> Seq<ServiceCall> {
    seq![
        ServiceCall::NewMechSet,
        ServiceCall::AddMech(args.mech),
        ServiceCall::AcquireCred(args),
    ]
}

/// What a run from the start comes to, case by case.
proof fn run_unfolded(args: AcquireArgs, service: spec_fn(ServiceCall) -> ServiceReply)
    ensures
        ({
            let made = service(ServiceCall::NewMechSet);
            let added = service(ServiceCall::AddMech(args.mech));
            let acquired = service(ServiceCall::AcquireCred(args));
            let r = run_from(AcquisitionView::start(args), service);
            if !is_complete(made.major) {
                r == (Run {
                    calls: all_calls(args).take(1),
                    outcome: Err(Error { major: made.major, minor: made.minor }),
                })
            } else if !is_complete(added.major) {
                r == (Run {
                    calls: all_calls(args).take(2),
                    outcome: Err(Error { major: added.major, minor: added.minor }),
                })
            } else {
                r == (Run { calls: all_calls(args), outcome: outcome_of(acquired) })
            }
        }),
{
    let s0 = AcquisitionView::start(args);
    let s1 = AcquisitionView { stage: Stage::AddMech, args };
    let s2 = AcquisitionView { stage: Stage::AcquireCred, args };
    let r2 = run_from(s2, service);
    assert(r2.calls =~= seq![ServiceCall::AcquireCred(args)]);
    let r1 = run_from(s1, service);
    let r0 = run_from(s0, service);
    let made = service(ServiceCall::NewMechSet);
    let added = service(ServiceCall::AddMech(args.mech));
    if !is_complete(made.major) {
        assert(r0.calls =~= all_calls(args).take(1));
    } else if !is_complete(added.major) {
        assert(r1.calls =~= seq![ServiceCall::AddMech(args.mech)]);
        assert(r0.calls =~= all_calls(args).take(2));
    } else {
        assert(r1.calls =~= seq![ServiceCall::AddMech(args.mech), ServiceCall::AcquireCred(args)]);
        assert(r0.calls =~= all_calls(args));
    }
}

/// The service gets the calls of an acquisition in one fixed order, each at
/// most once: the making of the set, the adding of the mechanism, the
/// acquiring. Every call but the last was answered with a complete status,
/// and the answer to the last decides the result.
pub proof fn calls_come_in_order(
    name: Option<RawName>,
    time_req: Option<u32>,
    usage: CredUsage,
    service: spec_fn(ServiceCall) -> ServiceReply,
)
    ensures
        ({
            let r = run(name, time_req, usage, service);
            let n = r.calls.len() as int;
            &&& 1 <= n <= 3
            &&& r.calls == all_calls(acquire_args(name, time_req, usage)).take(n)
            &&& forall|i: int| 0 <= i < n - 1 ==> is_complete(service(#[trigger] r.calls[i]).major)
            &&& n < 3 ==> !is_complete(service(r.calls.last()).major)
            &&& r.outcome is Ok ==> n == 3
            &&& r.outcome is Ok <==> is_complete(service(r.calls.last()).major)
        }),
{
    let args = acquire_args(name, time_req, usage);
    run_unfolded(args, service);
    assert(all_calls(args).take(3) =~= all_calls(args));
}

/// Where the mechanism set cannot be made or filled, the acquisition fails
/// with the status of the call that failed, and the service never gets an
/// acquire call.
pub proof fn failed_mech_set_stops_before_acquire(
    name: Option<RawName>,
    time_req: Option<u32>,
    usage: CredUsage,
    service: spec_fn(ServiceCall) -> ServiceReply,
)
    requires
        !is_complete(service(ServiceCall::NewMechSet).major) || !is_complete(
            service(ServiceCall::AddMech(Mechanism::Krb5)).major,
        ),
    ensures
        ({
            let r = run(name, time_req, usage, service);
            let made = service(ServiceCall::NewMechSet);
            let added = service(ServiceCall::AddMech(Mechanism::Krb5));
            &&& forall|i: int| 0 <= i < r.calls.len() ==> !(#[trigger] r.calls[i] is AcquireCred)
            &&& r.outcome == Err::<CredView, Error>(
                if !is_complete(made.major) {
                    Error { major: made.major, minor: made.minor }
                } else {
                    Error { major: added.major, minor: added.minor }
                },
            )
        }),
{
    run_unfolded(acquire_args(name, time_req, usage), service);
}

/// Where the service answers every call with a complete status, the
/// acquisition yields a credential with one holder around the very handle
/// that the service put out.
pub proof fn complete_service_yields_its_handle(
    name: Option<RawName>,
    time_req: Option<u32>,
    usage: CredUsage,
    service: spec_fn(ServiceCall) -> ServiceReply,
)
    requires
        forall|call: ServiceCall| is_complete((#[trigger] service(call)).major),
    ensures
        ({
            let args = acquire_args(name, time_req, usage);
            let r = run(name, time_req, usage, service);
            &&& r.calls == all_calls(args)
            &&& r.outcome == Ok::<CredView, Error>(
                CredView { raw: service(ServiceCall::AcquireCred(args)).cred, holders: 1 },
            )
        }),
{
    run_unfolded(acquire_args(name, time_req, usage), service);
}

/// An acquisition fails exactly with the status pair that the service gave
/// to its last call, whichever call that was and whatever the status, so
/// long as it is not the complete one.
pub proof fn failure_carries_the_status(
    name: Option<RawName>,
    time_req: Option<u32>,
    usage: CredUsage,
    service: spec_fn(ServiceCall) -> ServiceReply,
)
    ensures
        ({
            let r = run(name, time_req, usage, service);
            let last = service(r.calls.last());
            &&& r.calls.len() > 0
            &&& !is_complete(last.major) ==> r.outcome == Err::<CredView, Error>(
                Error { major: last.major, minor: last.minor },
            )
            &&& r.outcome matches Err(e) ==> e.major == last.major && e.minor == last.minor
                && !is_complete(e.major)
        }),
{
    run_unfolded(acquire_args(name, time_req, usage), service);
}

/// The acquire call is given what the request resolves to. With no name and
/// no lifetime asked for, that is the null name and the indefinite lifetime.
/// It never asks for a report on what was granted.
pub proof fn acquire_call_gets_resolved_request(
    name: Option<RawName>,
    time_req: Option<u32>,
    usage: CredUsage,
    service: spec_fn(ServiceCall) -> ServiceReply,
)
    ensures
        forall|i: int|
            0 <= i < run(name, time_req, usage, service).calls.len() ==> (#[trigger] run(
                name,
                time_req,
                usage,
                service,
            ).calls[i] matches ServiceCall::AcquireCred(args) ==> {
                &&& args == acquire_args(name, time_req, usage)
                &&& name is None ==> args.name == RawName(NULL_ADDRESS)
                &&& time_req is None ==> args.time_req == GSS_C_INDEFINITE
                &&& name matches Some(n) ==> args.name == n
                &&& time_req matches Some(t) ==> args.time_req == t
                &&& args.usage == usage.spec_code()
                &&& args.mech == Mechanism::Krb5
                &&& !args.want_actual_mechs
                &&& !args.want_time_rec
            }),
{
    run_unfolded(acquire_args(name, time_req, usage), service);
}

} // verus!
