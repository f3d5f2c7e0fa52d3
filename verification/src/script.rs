//! A scripted transport: a deterministic in-memory component implementing
//! the generic service pattern, driven entirely by a script of probe
//! reports and dispatch replies.
//!
//! It is a conforming transport in its own right — the kind of test double
//! the capability contract explicitly admits — and it exercises every
//! channel of the contract: delayed readiness, readiness failures,
//! successful responses with streaming bodies, dispatch failures, and
//! body-streaming failures.

use vstd::prelude::*;

use crate::body::{BodyFrame, BodyPoll, RpcBody, StreamingBody};
use crate::error::{ErrorModel, IntoTransportError, TransportError};
use crate::message::{Request, Response};
use crate::outcome::Readiness;
use crate::pending::PendingResult;
use crate::service::Service;

verus! {

/// The failure code a scripted transport reports when dispatched with an
/// exhausted reply script.
pub const SCRIPT_EXHAUSTED: u64 = 0;

/// The native error type of the scripted transport and its body: a bare
/// failure code. Distinct codes stand for distinct failures.
#[derive(Debug, PartialEq, Eq, Clone, Copy)]
pub struct ScriptedError {
    /// Identifies the scripted failure.
    pub code: u64,
}

impl IntoTransportError for ScriptedError {
    open spec fn transport_view(&self) -> ErrorModel {
        ErrorModel { code: self.code, detail: Seq::empty() }
    }

    fn into_transport(self) -> (e: TransportError) {
        let e = TransportError::new(self.code, String::new());
        proof {
            assert(e@ =~= self.transport_view());
        }
        e
    }
}

/// The conversion of scripted errors into the common error type keeps
/// distinct failures distinguishable: two scripted errors with the same
/// converted representation were already the same failure.
pub proof fn lemma_scripted_conversion_injective(a: ScriptedError, b: ScriptedError)
    ensures
        a.transport_view() == b.transport_view() ==> a == b,
{
}

/// A scripted streaming body: yields its frames in order, then reports its
/// scripted failure once, or ends cleanly.
#[derive(Debug, PartialEq, Eq)]
pub struct ScriptedBody {
    frames: Vec<BodyFrame<Vec<u8>>>,
    failure: Option<ScriptedError>,
}

impl ScriptedBody {
    /// A body that will yield `frames` in order and then fail with
    /// `failure`, or end cleanly if `failure` is `None`.
    pub fn new(frames: Vec<BodyFrame<Vec<u8>>>, failure: Option<ScriptedError>) -> (b: Self)
        ensures
            b.remaining() == frames@,
            b.pending_failure() == failure,
    {
        ScriptedBody { frames, failure }
    }
}

impl StreamingBody for ScriptedBody {
    type Data = Vec<u8>;

    type Error = ScriptedError;

    closed spec fn remaining(&self) -> Seq<BodyFrame<Vec<u8>>> {
        self.frames@
    }

    closed spec fn pending_failure(&self) -> Option<ScriptedError> {
        self.failure
    }

    fn poll_frame(&mut self) -> (f: BodyPoll<Vec<u8>, ScriptedError>) {
        if self.frames.len() > 0 {
            let fr = self.frames.remove(0);
            BodyPoll::Frame(fr)
        } else {
            match self.failure.take() {
                Some(e) => BodyPoll::Failed(e),
                None => BodyPoll::Finished,
            }
        }
    }
}

impl RpcBody for ScriptedBody {
    open spec fn data_view(data: Vec<u8>) -> Seq<u8> {
        data@
    }

    fn frame_bytes(data: &Vec<u8>) -> (b: Vec<u8>) {
        let mut b: Vec<u8> = Vec::new();
        let mut i: usize = 0;
        while i < data.len()
            invariant
                i <= data.len(),
                b@ == data@.subrange(0, i as int),
            decreases data.len() - i,
        {
            b.push(data[i]);
            proof {
                assert(data@.subrange(0, i + 1 as int) =~= data@.subrange(0, i as int).push(
                    data@[i as int],
                ));
            }
            i += 1;
        }
        proof {
            assert(b@ =~= data@);
        }
        b
    }
}

/// One scripted pre-ready probe report.
#[derive(Debug, PartialEq, Eq, Clone, Copy)]
pub enum ProbeStep {
    /// Report "not ready yet".
    Busy,
    /// Report a readiness failure with this error.
    Fail(ScriptedError),
}

/// The ghost model of a scripted transport: the probe reports it will give
/// before turning ready, and the replies its next dispatches resolve to.
#[verifier::ext_equal]
pub ghost struct ScriptModel {
    /// Pre-ready probe reports still scripted, front first.
    pub probes: Seq<ProbeStep>,
    /// Dispatch replies still scripted, front first.
    pub replies: Seq<Result<Response<ScriptedBody>, ScriptedError>>,
}

/// The scripted transport. Probes consume the probe script one report at a
/// time; once it is exhausted the transport is ready and stays ready.
/// Dispatches consume the reply script; an exhausted reply script yields a
/// `SCRIPT_EXHAUSTED` failure.
pub struct ScriptedTransport {
    probes: Vec<ProbeStep>,
    replies: Vec<Result<Response<ScriptedBody>, ScriptedError>>,
}

impl ScriptedTransport {
    /// Spec view: the script still ahead of this transport.
    pub closed spec fn script_model(&self) -> ScriptModel {
        ScriptModel { probes: self.probes@, replies: self.replies@ }
    }

    /// A transport that is ready at once and has no scripted replies.
    pub fn new() -> (t: Self)
        ensures
            t.script_model() == (ScriptModel { probes: Seq::empty(), replies: Seq::empty() }),
    {
        let t = ScriptedTransport { probes: Vec::new(), replies: Vec::new() };
        proof {
            assert(t.script_model() =~= (ScriptModel { probes: Seq::empty(), replies: Seq::empty() }));
        }
        t
    }

    /// Scripts one more "not ready yet" probe report.
    pub fn push_busy(&mut self)
        ensures
            final(self).script_model() == (ScriptModel {
                probes: old(self).script_model().probes.push(ProbeStep::Busy),
                replies: old(self).script_model().replies,
            }),
    {
        self.probes.push(ProbeStep::Busy);
        proof {
            assert(self.script_model() =~= (ScriptModel {
                probes: old(self).script_model().probes.push(ProbeStep::Busy),
                replies: old(self).script_model().replies,
            }));
        }
    }

    /// Scripts one more readiness-failure probe report.
    pub fn push_probe_failure(&mut self, e: ScriptedError)
        ensures
            final(self).script_model() == (ScriptModel {
                probes: old(self).script_model().probes.push(ProbeStep::Fail(e)),
                replies: old(self).script_model().replies,
            }),
    {
        self.probes.push(ProbeStep::Fail(e));
        proof {
            assert(self.script_model() =~= (ScriptModel {
                probes: old(self).script_model().probes.push(ProbeStep::Fail(e)),
                replies: old(self).script_model().replies,
            }));
        }
    }

    /// Scripts the reply the next unscripted dispatch resolves to.
    pub fn push_reply(&mut self, reply: Result<Response<ScriptedBody>, ScriptedError>)
        ensures
            final(self).script_model() == (ScriptModel {
                probes: old(self).script_model().probes,
                replies: old(self).script_model().replies.push(reply),
            }),
    {
        self.replies.push(reply);
        proof {
            assert(self.script_model() =~= (ScriptModel {
                probes: old(self).script_model().probes,
                replies: old(self).script_model().replies.push(reply),
            }));
        }
    }
}

impl<ReqBody> Service<ReqBody> for ScriptedTransport {
    type ResBody = ScriptedBody;

    type Error = ScriptedError;

    type Model = ScriptModel;

    open spec fn model(&self) -> ScriptModel {
        self.script_model()
    }

    open spec fn probe_of(m: ScriptModel) -> Readiness<ScriptedError> {
        if m.probes.len() > 0 {
            match m.probes[0] {
                ProbeStep::Busy => Readiness::Pending,
                ProbeStep::Fail(e) => Readiness::Ready(Err(e)),
            }
        } else {
            Readiness::Ready(Ok(()))
        }
    }

    open spec fn probe_next(m: ScriptModel) -> ScriptModel {
        if m.probes.len() > 0 {
            ScriptModel { probes: m.probes.remove(0), replies: m.replies }
        } else {
            m
        }
    }

    open spec fn dispatch_of(m: ScriptModel, request: Request<ReqBody>) -> Result<
        Response<ScriptedBody>,
        ScriptedError,
    > {
        if m.replies.len() > 0 {
            m.replies[0]
        } else {
            Err(ScriptedError { code: SCRIPT_EXHAUSTED })
        }
    }

    open spec fn dispatch_next(m: ScriptModel, request: Request<ReqBody>) -> ScriptModel {
        if m.replies.len() > 0 {
            ScriptModel { probes: m.probes, replies: m.replies.remove(0) }
        } else {
            m
        }
    }

    fn poll_ready(&mut self) -> (r: Readiness<ScriptedError>) {
        let ghost m0 = self.script_model();
        if self.probes.len() > 0 {
            let step = self.probes.remove(0);
            proof {
                assert(step == m0.probes[0]);
                assert(self.script_model() =~= (ScriptModel {
                    probes: m0.probes.remove(0),
                    replies: m0.replies,
                }));
            }
            match step {
                ProbeStep::Busy => Readiness::Pending,
                ProbeStep::Fail(e) => Readiness::Ready(Err(e)),
            }
        } else {
            Readiness::Ready(Ok(()))
        }
    }

    fn call(&mut self, request: Request<ReqBody>) -> (pr: PendingResult<
        Response<ScriptedBody>,
        ScriptedError,
    >) {
        let ghost m0 = self.script_model();
        if self.replies.len() > 0 {
            let out = self.replies.remove(0);
            proof {
                assert(out == m0.replies[0]);
                assert(self.script_model() =~= (ScriptModel {
                    probes: m0.probes,
                    replies: m0.replies.remove(0),
                }));
            }
            PendingResult::resolved(out)
        } else {
            PendingResult::resolved(Err(ScriptedError { code: SCRIPT_EXHAUSTED }))
        }
    }

    proof fn probe_keeps_ready(m: ScriptModel) {
    }

    proof fn probe_keeps_dispatch(m: ScriptModel, request: Request<ReqBody>) {
        let probed = <Self as Service<ReqBody>>::probe_next(m);
        let dispatched = <Self as Service<ReqBody>>::dispatch_next(m, request);
        assert(probed.replies == m.replies);
        assert(<Self as Service<ReqBody>>::dispatch_next(probed, request) =~= <Self as Service<
            ReqBody,
        >>::probe_next(dispatched));
    }
}

} // verus!
