//! The body capabilities exercised on scripted streaming bodies.

use grpc_service::body::{BodyFrame, BodyPoll, RpcBody, StreamingBody};
use grpc_service::error::IntoTransportError;
use grpc_service::script::{ScriptedBody, ScriptedError};

#[test]
fn frames_come_out_in_order() {
    let mut body = ScriptedBody::new(
        vec![
            BodyFrame::Data(b"one".to_vec()),
            BodyFrame::Data(b"two".to_vec()),
            BodyFrame::Trailers(vec![("status".to_string(), "0".to_string())]),
        ],
        None,
    );
    assert!(matches!(
        body.poll_frame(),
        BodyPoll::Frame(BodyFrame::Data(d)) if d == b"one".to_vec()
    ));
    assert!(matches!(
        body.poll_frame(),
        BodyPoll::Frame(BodyFrame::Data(d)) if d == b"two".to_vec()
    ));
    match body.poll_frame() {
        BodyPoll::Frame(BodyFrame::Trailers(t)) => {
            assert_eq!(t, vec![("status".to_string(), "0".to_string())]);
        }
        other => panic!("expected the trailing metadata: {:?}", other),
    }
    assert!(matches!(body.poll_frame(), BodyPoll::Finished));
}

#[test]
fn stream_failure_is_terminal_and_reported_once() {
    // The body yields its frames, then its one failure, and from then on
    // only reports the end of the stream: one terminal outcome, not two.
    let mut body = ScriptedBody::new(
        vec![BodyFrame::Data(b"partial".to_vec())],
        Some(ScriptedError { code: 13 }),
    );
    assert!(matches!(body.poll_frame(), BodyPoll::Frame(BodyFrame::Data(_))));
    match body.poll_frame() {
        BodyPoll::Failed(e) => assert_eq!(e.code, 13),
        other => panic!("expected the scripted streaming failure: {:?}", other),
    }
    assert!(matches!(body.poll_frame(), BodyPoll::Finished));
    assert!(matches!(body.poll_frame(), BodyPoll::Finished));
}

#[test]
fn empty_body_finishes_at_once() {
    let mut body = ScriptedBody::new(Vec::new(), None);
    assert!(matches!(body.poll_frame(), BodyPoll::Finished));
}

#[test]
fn frame_bytes_reads_a_chunk_as_its_bytes() {
    let chunk = b"raw bytes".to_vec();
    let read = <ScriptedBody as RpcBody>::frame_bytes(&chunk);
    assert_eq!(read, chunk);
}

#[test]
fn body_error_converts_like_any_native_error() {
    // The body's own streaming error uses the same conversion into the
    // common error type as the transport's service error.
    let e = ScriptedError { code: 21 };
    let common = e.into_transport();
    assert_eq!(common.code(), 21);
    assert_eq!(common.detail().as_str(), "");
}
