//! The capability contract exercised end to end through the universal
//! adapter, on scripted transports.

use grpc_service::body::StreamingBody;
use grpc_service::message::{Request, Response};
use grpc_service::outcome::Readiness;
use grpc_service::pending::{PendingResult, PollOutcome};
use grpc_service::script::{ScriptedBody, ScriptedError, ScriptedTransport, SCRIPT_EXHAUSTED};
use grpc_service::service::{drive, DriveOutcome, GrpcService, Service};

type Req = Vec<u8>;

fn grpc_probe(t: &mut ScriptedTransport) -> Readiness<grpc_service::error::TransportError> {
    <ScriptedTransport as GrpcService<Req>>::poll_ready(t)
}

fn grpc_call(
    t: &mut ScriptedTransport,
    req: Request<Req>,
) -> PendingResult<Response<ScriptedBody>, grpc_service::error::TransportError> {
    <ScriptedTransport as GrpcService<Req>>::call(t, req)
}

fn native_probe(t: &mut ScriptedTransport) -> Readiness<ScriptedError> {
    <ScriptedTransport as Service<Req>>::poll_ready(t)
}

fn native_call(
    t: &mut ScriptedTransport,
    req: Request<Req>,
) -> PendingResult<Response<ScriptedBody>, ScriptedError> {
    <ScriptedTransport as Service<Req>>::call(t, req)
}

fn ok_reply(frames: Vec<Vec<u8>>) -> Result<Response<ScriptedBody>, ScriptedError> {
    let frames = frames
        .into_iter()
        .map(grpc_service::body::BodyFrame::Data)
        .collect();
    Ok(Response::new(ScriptedBody::new(frames, None)))
}

fn body_data(body: &mut ScriptedBody) -> Vec<Vec<u8>> {
    let mut out = Vec::new();
    loop {
        match body.poll_frame() {
            grpc_service::body::BodyPoll::Frame(grpc_service::body::BodyFrame::Data(d)) => {
                out.push(d)
            }
            grpc_service::body::BodyPoll::Frame(_) => {}
            grpc_service::body::BodyPoll::Finished => return out,
            grpc_service::body::BodyPoll::Failed(_) => panic!("body failed unexpectedly"),
        }
    }
}

#[test]
fn adapted_view_matches_direct_access() {
    // The same script, read once directly and once through the adapted
    // view: identical probe reports and identical dispatch outcomes.
    let mut direct = ScriptedTransport::new();
    direct.push_busy();
    direct.push_reply(ok_reply(vec![b"abc".to_vec(), b"def".to_vec()]));
    let mut adapted = ScriptedTransport::new();
    adapted.push_busy();
    adapted.push_reply(ok_reply(vec![b"abc".to_vec(), b"def".to_vec()]));

    assert!(matches!(native_probe(&mut direct), Readiness::Pending));
    assert!(matches!(grpc_probe(&mut adapted), Readiness::Pending));
    assert!(matches!(native_probe(&mut direct), Readiness::Ready(Ok(()))));
    assert!(matches!(grpc_probe(&mut adapted), Readiness::Ready(Ok(()))));

    let d = match native_call(&mut direct, Request::new(b"q".to_vec())) {
        PendingResult::Resolved(Ok(resp)) => body_data(&mut resp.into_body()),
        other => panic!("direct dispatch did not resolve to a response: {:?}", other),
    };
    let a = match grpc_call(&mut adapted, Request::new(b"q".to_vec())) {
        PendingResult::Resolved(Ok(resp)) => body_data(&mut resp.into_body()),
        other => panic!("adapted dispatch did not resolve to a response: {:?}", other),
    };
    assert_eq!(d, a);
    assert_eq!(a, vec![b"abc".to_vec(), b"def".to_vec()]);
}

#[test]
fn repeated_probes_keep_ready() {
    // An immediately-ready transport stays ready under repeated probing.
    let mut t = ScriptedTransport::new();
    for _ in 0..5 {
        assert!(grpc_probe(&mut t).is_ready_ok());
    }
}

#[test]
fn not_ready_once_then_ready_dispatch_succeeds() {
    // A transport that reports not-ready once, then ready: probing twice
    // and dispatching succeeds exactly as if readiness had been immediate.
    let mut delayed = ScriptedTransport::new();
    delayed.push_busy();
    delayed.push_reply(ok_reply(vec![b"payload".to_vec()]));
    let mut immediate = ScriptedTransport::new();
    immediate.push_reply(ok_reply(vec![b"payload".to_vec()]));

    assert!(matches!(grpc_probe(&mut delayed), Readiness::Pending));
    assert!(matches!(grpc_probe(&mut delayed), Readiness::Ready(Ok(()))));
    let got = match grpc_call(&mut delayed, Request::new(b"q".to_vec())) {
        PendingResult::Resolved(Ok(resp)) => body_data(&mut resp.into_body()),
        other => panic!("dispatch after delayed readiness failed: {:?}", other),
    };
    assert!(matches!(grpc_probe(&mut immediate), Readiness::Ready(Ok(()))));
    let want = match grpc_call(&mut immediate, Request::new(b"q".to_vec())) {
        PendingResult::Resolved(Ok(resp)) => body_data(&mut resp.into_body()),
        other => panic!("dispatch with immediate readiness failed: {:?}", other),
    };
    assert_eq!(got, want);
}

#[test]
fn native_dispatch_error_converted_keeps_identity() {
    // A native dispatch failure comes out of the adapted view as the
    // common error type, and distinct native failures stay distinct.
    let mut t = ScriptedTransport::new();
    t.push_reply(Err(ScriptedError { code: 7 }));
    t.push_reply(Err(ScriptedError { code: 8 }));

    let first = match grpc_call(&mut t, Request::new(b"one".to_vec())) {
        PendingResult::Resolved(Err(e)) => e,
        other => panic!("expected a dispatch failure: {:?}", other),
    };
    let second = match grpc_call(&mut t, Request::new(b"two".to_vec())) {
        PendingResult::Resolved(Err(e)) => e,
        other => panic!("expected a dispatch failure: {:?}", other),
    };
    assert_eq!(first.code(), 7);
    assert_eq!(second.code(), 8);
    assert_ne!(first.code(), second.code());
}

#[test]
fn readiness_failure_converted() {
    // A scripted readiness failure surfaces through the adapted probe as
    // the common error type with the native code preserved.
    let mut t = ScriptedTransport::new();
    t.push_probe_failure(ScriptedError { code: 9 });
    match grpc_probe(&mut t) {
        Readiness::Ready(Err(e)) => assert_eq!(e.code(), 9),
        other => panic!("expected a readiness failure: {:?}", other),
    }
}

#[test]
fn exhausted_reply_script_reports_failure() {
    // Dispatching a ready transport whose reply script is exhausted yields
    // the designated failure code, not a silent success.
    let mut t = ScriptedTransport::new();
    match grpc_call(&mut t, Request::new(b"q".to_vec())) {
        PendingResult::Resolved(Err(e)) => assert_eq!(e.code(), SCRIPT_EXHAUSTED),
        other => panic!("expected the exhausted-script failure: {:?}", other),
    }
}

#[test]
fn drive_dispatches_after_delayed_readiness() {
    let mut t = ScriptedTransport::new();
    t.push_busy();
    t.push_busy();
    t.push_reply(ok_reply(vec![b"late".to_vec()]));
    match drive(&mut t, Request::new(b"q".to_vec()), 5) {
        DriveOutcome::Dispatched(Ok(resp)) => {
            assert_eq!(body_data(&mut resp.into_body()), vec![b"late".to_vec()]);
        }
        other => panic!("expected a dispatched response: {:?}", other),
    }
}

#[test]
fn drive_reports_a_dispatch_failure_converted() {
    let mut t = ScriptedTransport::new();
    t.push_busy();
    t.push_reply(Err(ScriptedError { code: 17 }));
    match drive(&mut t, Request::new(b"q".to_vec()), 5) {
        DriveOutcome::Dispatched(Err(e)) => assert_eq!(e.code(), 17),
        other => panic!("expected the dispatch failure: {:?}", other),
    }
}

#[test]
fn drive_hands_request_back_when_budget_runs_out() {
    let mut t = ScriptedTransport::new();
    for _ in 0..4 {
        t.push_busy();
    }
    match drive(&mut t, Request::new(b"kept".to_vec()), 3) {
        DriveOutcome::StillBusy(req) => assert_eq!(req.body, b"kept".to_vec()),
        other => panic!("expected the probe budget to run out: {:?}", other),
    }
}

#[test]
fn drive_hands_request_back_on_readiness_failure() {
    let mut t = ScriptedTransport::new();
    t.push_busy();
    t.push_probe_failure(ScriptedError { code: 11 });
    match drive(&mut t, Request::new(b"kept".to_vec()), 5) {
        DriveOutcome::Rejected(e, req) => {
            assert_eq!(e.code(), 11);
            assert_eq!(req.body, b"kept".to_vec());
        }
        other => panic!("expected a readiness rejection: {:?}", other),
    }
}

#[test]
fn pending_result_delivers_exactly_once() {
    // The single-shot handle: resolving fills the slot once, polling
    // delivers the one outcome and spends the handle.
    let mut pr: PendingResult<u32, u32> = PendingResult::pending();
    assert!(pr.is_pending());
    assert!(matches!(pr.poll(), PollOutcome::NotYet));
    pr.resolve(Ok(42));
    assert!(!pr.is_pending());
    match pr.poll() {
        PollOutcome::Delivered(Ok(v)) => assert_eq!(v, 42),
        other => panic!("expected the resolved outcome: {:?}", other),
    }
    assert!(matches!(pr, PendingResult::Consumed));
}

#[test]
fn independent_dispatches_have_independent_outcomes() {
    // Two dispatches through one transport: each handle resolves to its
    // own outcome, in script order, sharing nothing.
    let mut t = ScriptedTransport::new();
    t.push_reply(ok_reply(vec![b"first".to_vec()]));
    t.push_reply(Err(ScriptedError { code: 3 }));
    let first = grpc_call(&mut t, Request::new(b"a".to_vec()));
    let second = grpc_call(&mut t, Request::new(b"b".to_vec()));
    match first {
        PendingResult::Resolved(Ok(resp)) => {
            assert_eq!(body_data(&mut resp.into_body()), vec![b"first".to_vec()])
        }
        other => panic!("first dispatch should have succeeded: {:?}", other),
    }
    match second {
        PendingResult::Resolved(Err(e)) => assert_eq!(e.code(), 3),
        other => panic!("second dispatch should have failed: {:?}", other),
    }
}
