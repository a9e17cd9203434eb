use gss_credential::acquire::{
    AcquireArgs, Mechanism, Next, ServiceCall, ServiceReply, GSS_C_INDEFINITE,
};
use gss_credential::credential::{Cred, Dropped};
use gss_credential::handle::{RawCred, RawName, NULL_ADDRESS};
use gss_credential::status::{Error, GSS_S_COMPLETE};
use gss_credential::usage::CredUsage;

/// A service that answers from a script and keeps a record of what it was
/// asked.
struct FakeService {
    new_set: (u32, u32),
    add_mech: (u32, u32),
    acquire: (u32, u32, usize),
    calls: Vec<ServiceCall>,
    releases: Vec<RawCred>,
}

impl FakeService {
    fn succeeding(cred: usize) -> FakeService {
        FakeService {
            new_set: (GSS_S_COMPLETE, 0),
            add_mech: (GSS_S_COMPLETE, 0),
            acquire: (GSS_S_COMPLETE, 0, cred),
            calls: Vec::new(),
            releases: Vec::new(),
        }
    }

    fn perform(&mut self, call: ServiceCall) -> ServiceReply {
        self.calls.push(call);
        match call {
            ServiceCall::NewMechSet => ServiceReply::status(self.new_set.0, self.new_set.1),
            ServiceCall::AddMech(_) => ServiceReply::status(self.add_mech.0, self.add_mech.1),
            ServiceCall::AcquireCred(_) => {
                ServiceReply::acquired(self.acquire.0, self.acquire.1, RawCred(self.acquire.2))
            }
        }
    }

    fn acquire_calls(&self) -> usize {
        self.calls
            .iter()
            .filter(|c| matches!(c, ServiceCall::AcquireCred(_)))
            .count()
    }

    fn release(&mut self, dropped: Dropped) -> Option<Cred> {
        match dropped {
            Dropped::Held(rest) => Some(rest),
            Dropped::Release(raw) => {
                self.releases.push(raw);
                None
            }
        }
    }
}

fn drive(
    service: &mut FakeService,
    name: Option<RawName>,
    time_req: Option<u32>,
    usage: CredUsage,
) -> Result<Cred, Error> {
    let mut acq = Cred::acquire(name, time_req, usage);
    loop {
        let reply = service.perform(acq.pending());
        match acq.step(reply) {
            Next::Call(next) => acq = next,
            Next::Done(result) => return result,
        }
    }
}

fn krb5_args(name: usize, time_req: u32, usage: i32) -> AcquireArgs {
    AcquireArgs {
        name: RawName(name),
        time_req,
        mech: Mechanism::Krb5,
        usage,
        want_actual_mechs: false,
        want_time_rec: false,
    }
}

#[test]
fn default_initiate_acquisition_releases_once_after_both_holders_drop() {
    let mut service = FakeService::succeeding(0x5000);
    let result = drive(&mut service, None, None, CredUsage::Initiate);
    let mut cred = match result {
        Ok(cred) => cred,
        Err(e) => panic!("acquisition failed: {:?}", e),
    };
    assert_eq!(cred.holders(), 1);
    cred.add_holder();
    assert_eq!(cred.holders(), 2);
    let rest = service.release(cred.drop_holder());
    assert!(service.releases.is_empty());
    let rest = rest.unwrap();
    assert_eq!(rest.holders(), 1);
    let rest = service.release(rest.drop_holder());
    assert!(rest.is_none());
    assert_eq!(service.releases, vec![RawCred(0x5000)]);
}

#[test]
fn calls_come_in_order_with_the_resolved_request() {
    let mut service = FakeService::succeeding(7);
    let result = drive(&mut service, Some(RawName(0x1234)), Some(3600), CredUsage::Accept);
    assert!(result.is_ok());
    assert_eq!(
        service.calls,
        vec![
            ServiceCall::NewMechSet,
            ServiceCall::AddMech(Mechanism::Krb5),
            ServiceCall::AcquireCred(krb5_args(0x1234, 3600, 2)),
        ]
    );
}

#[test]
fn absent_name_and_time_reach_the_service_as_null_and_indefinite() {
    let mut service = FakeService::succeeding(7);
    let result = drive(&mut service, None, None, CredUsage::Both);
    assert!(result.is_ok());
    assert_eq!(service.calls.len(), 3);
    match service.calls[2] {
        ServiceCall::AcquireCred(args) => {
            assert_eq!(args.name, RawName(NULL_ADDRESS));
            assert_eq!(args.name, RawName(0));
            assert_eq!(args.time_req, GSS_C_INDEFINITE);
            assert_eq!(args.time_req, 0xffff_ffff);
            assert_eq!(args.usage, 0);
            assert_eq!(args.mech, Mechanism::Krb5);
            assert!(!args.want_actual_mechs);
            assert!(!args.want_time_rec);
        }
        other => panic!("third call was {:?}", other),
    }
}

#[test]
fn absent_name_with_a_lifetime_and_a_name_without() {
    let mut service = FakeService::succeeding(7);
    assert!(drive(&mut service, None, Some(0), CredUsage::Initiate).is_ok());
    assert_eq!(service.calls[2], ServiceCall::AcquireCred(krb5_args(0, 0, 1)));

    let mut service = FakeService::succeeding(7);
    assert!(drive(&mut service, Some(RawName(usize::MAX)), None, CredUsage::Initiate).is_ok());
    assert_eq!(
        service.calls[2],
        ServiceCall::AcquireCred(krb5_args(usize::MAX, 0xffff_ffff, 1))
    );
}

#[test]
fn first_pending_call_makes_the_mechanism_set() {
    let acq = Cred::acquire(None, None, CredUsage::Initiate);
    assert_eq!(acq.pending(), ServiceCall::NewMechSet);
}

#[test]
fn failed_new_mech_set_fails_before_any_acquire_call() {
    let mut service = FakeService::succeeding(7);
    service.new_set = (0x000d_0000, 11);
    let result = drive(&mut service, None, None, CredUsage::Initiate);
    match result {
        Err(e) => assert_eq!(e, Error { major: 0x000d_0000, minor: 11 }),
        Ok(_) => panic!("acquisition succeeded"),
    }
    assert_eq!(service.calls, vec![ServiceCall::NewMechSet]);
    assert_eq!(service.acquire_calls(), 0);
}

#[test]
fn failed_add_mech_fails_before_any_acquire_call() {
    let mut service = FakeService::succeeding(7);
    service.add_mech = (0x0001_0000, 22);
    let result = drive(&mut service, Some(RawName(5)), Some(60), CredUsage::Both);
    match result {
        Err(e) => assert_eq!(e, Error { major: 0x0001_0000, minor: 22 }),
        Ok(_) => panic!("acquisition succeeded"),
    }
    assert_eq!(
        service.calls,
        vec![ServiceCall::NewMechSet, ServiceCall::AddMech(Mechanism::Krb5)]
    );
    assert_eq!(service.acquire_calls(), 0);
}

#[test]
fn complete_service_yields_the_handle_it_produced() {
    for handle in [1usize, 0x7fff_0000, usize::MAX] {
        let mut service = FakeService::succeeding(handle);
        let cred = match drive(&mut service, None, None, CredUsage::Accept) {
            Ok(cred) => cred,
            Err(e) => panic!("acquisition failed: {:?}", e),
        };
        assert_eq!(cred.as_raw(), RawCred(handle));
        assert_eq!(*cred, RawCred(handle));
        assert_eq!(cred.holders(), 1);
        assert_eq!(service.acquire_calls(), 1);
    }
}

#[test]
fn refused_acquire_carries_exactly_the_status_pair() {
    for (major, minor) in [(1u32, 0u32), (0x0007_0000, 2), (0x000d_0000, 0x9999), (u32::MAX, u32::MAX)] {
        let mut service = FakeService::succeeding(7);
        service.acquire = (major, minor, 0x4242);
        match drive(&mut service, None, None, CredUsage::Initiate) {
            Err(e) => {
                assert_eq!(e.major, major);
                assert_eq!(e.minor, minor);
            }
            Ok(_) => panic!("acquisition succeeded on major {}", major),
        }
        assert_eq!(service.acquire_calls(), 1);
        assert!(service.releases.is_empty());
    }
}

#[test]
fn minor_status_of_a_complete_call_does_not_stop_the_acquisition() {
    let mut service = FakeService::succeeding(0x77);
    service.new_set = (GSS_S_COMPLETE, 5);
    service.add_mech = (GSS_S_COMPLETE, 6);
    service.acquire = (GSS_S_COMPLETE, 7, 0x77);
    match drive(&mut service, None, None, CredUsage::Initiate) {
        Ok(cred) => assert_eq!(cred.as_raw(), RawCred(0x77)),
        Err(e) => panic!("acquisition failed: {:?}", e),
    }
}

#[test]
fn handle_in_the_answer_to_a_mechanism_call_is_not_read() {
    let acq = Cred::acquire(None, None, CredUsage::Initiate);
    let next = acq.step(ServiceReply::acquired(GSS_S_COMPLETE, 0, RawCred(0x99)));
    let acq = match next {
        Next::Call(acq) => acq,
        Next::Done(_) => panic!("over after the first call"),
    };
    assert_eq!(acq.pending(), ServiceCall::AddMech(Mechanism::Krb5));
    let next = acq.step(ServiceReply::acquired(GSS_S_COMPLETE, 0, RawCred(0x99)));
    let acq = match next {
        Next::Call(acq) => acq,
        Next::Done(_) => panic!("over after the second call"),
    };
    assert_eq!(acq.pending(), ServiceCall::AcquireCred(krb5_args(0, 0xffff_ffff, 1)));
}

#[test]
fn status_reply_has_the_null_handle() {
    let reply = ServiceReply::status(3, 4);
    assert_eq!(reply, ServiceReply { major: 3, minor: 4, cred: RawCred(0) });
    let reply = ServiceReply::acquired(0, 9, RawCred(12));
    assert_eq!(reply, ServiceReply { major: 0, minor: 9, cred: RawCred(12) });
}

#[test]
fn continue_needed_is_a_failure_like_any_other() {
    let mut service = FakeService::succeeding(7);
    service.acquire = (1, 0, 0x4242);
    assert!(drive(&mut service, None, None, CredUsage::Initiate).is_err());
}
