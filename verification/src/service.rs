//! The capability contract and its automatic satisfaction.
//!
//! [`Service`] is the generic service pattern: a readiness probe plus a
//! typed-message dispatch, the primitive shape a transport component
//! already has. [`GrpcService`] is the capability contract an RPC transport
//! must expose. The blanket implementation below is the universal adapter:
//! any component implementing the generic service pattern satisfies the
//! capability contract with no hand-written glue, if and only if
//!
//! 1. its error type converts into the common error type,
//! 2. its response-body type has both body capabilities, and
//! 3. its response-body's own streaming error type converts into the
//!    common error type.
//!
//! Adaptation is all-or-nothing and checked where it is attempted, never at
//! run time; when it applies, every operation is a direct forward of the
//! component's own operation, with only the error normalization added.

use vstd::prelude::*;

use crate::body::{RpcBody, StreamingBody};
use crate::error::{ErrorModel, IntoTransportError, TransportError};
use crate::message::{Request, Response};
use crate::outcome::Readiness;
use crate::pending::PendingResult;

verus! {

/// True of a probe report that lets a caller dispatch now.
pub open spec fn ready_ok<E>(r: Readiness<E>) -> bool {
    r matches Readiness::Ready(Ok(()))
}

/// The common-error view of a native probe report: the same report, with
/// the failure (if any) seen through its conversion.
pub open spec fn lift_probe<E: IntoTransportError>(r: Readiness<E>) -> Readiness<ErrorModel> {
    match r {
        Readiness::Pending => Readiness::Pending,
        Readiness::Ready(Ok(u)) => Readiness::Ready(Ok(u)),
        Readiness::Ready(Err(e)) => Readiness::Ready(Err(e.transport_view())),
    }
}

/// The common-error view of a native dispatch outcome: the same outcome,
/// with the failure (if any) seen through its conversion.
pub open spec fn lift_outcome<B, E: IntoTransportError>(out: Result<Response<B>, E>) -> Result<
    Response<B>,
    ErrorModel,
> {
    match out {
        Ok(resp) => Ok(resp),
        Err(e) => Err(e.transport_view()),
    }
}

/// True when an executable probe report agrees with its common-error view:
/// the same report, and the error value (if any) realizes the viewed one.
pub open spec fn probe_agrees(r: Readiness<TransportError>, v: Readiness<ErrorModel>) -> bool {
    match r {
        Readiness::Pending => v is Pending,
        Readiness::Ready(Ok(u)) => v matches Readiness::Ready(Ok(_)),
        Readiness::Ready(Err(e)) => v matches Readiness::Ready(Err(em)) && e@ == em,
    }
}

/// True when an executable dispatch outcome agrees with its common-error
/// view: the same response, and the error value (if any) realizes the
/// viewed one.
pub open spec fn outcome_agrees<B>(
    out: Result<Response<B>, TransportError>,
    v: Result<Response<B>, ErrorModel>,
) -> bool {
    match out {
        Ok(resp) => v matches Ok(vresp) && resp == vresp,
        Err(e) => v matches Err(em) && e@ == em,
    }
}

/// The generic service pattern: a readiness probe plus a dispatch of one
/// request message to one response message, over the component's own error
/// type.
///
/// Each implementor describes itself through a ghost `Model` and four spec
/// functions giving the exact report and state transition of each
/// operation; the executable operations must realize them. Two proof
/// obligations pin the temporal behavior every conforming transport must
/// have: probing is idempotent (a transport probed ready stays ready until
/// a dispatch intervenes) and probing never changes what a dispatch will
/// produce.
pub trait Service<ReqBody>: Sized {
    /// The response-body type of this component's response messages.
    type ResBody;

    /// The error type produced when the component fails to become ready or
    /// fails to dispatch.
    type Error;

    /// The ghost model of the component's transport state.
    type Model;

    /// Spec view: the model of the current state.
    spec fn model(&self) -> Self::Model;

    /// Spec view: what a probe in model state `m` reports.
    spec fn probe_of(m: Self::Model) -> Readiness<Self::Error>;

    /// Spec view: the model state after one probe in state `m`.
    spec fn probe_next(m: Self::Model) -> Self::Model;

    /// Spec view: the outcome a dispatch of `request` in state `m`
    /// resolves to.
    spec fn dispatch_of(m: Self::Model, request: Request<ReqBody>) -> Result<
        Response<Self::ResBody>,
        Self::Error,
    >;

    /// Spec view: the model state after dispatching `request` in state `m`.
    spec fn dispatch_next(m: Self::Model, request: Request<ReqBody>) -> Self::Model;

    /// Probes whether the component can accept a request now. Non-blocking,
    /// never consumes a request; may be repeated freely.
    fn poll_ready(&mut self) -> (r: Readiness<Self::Error>)
        ensures
            r == Self::probe_of(old(self).model()),
            final(self).model() == Self::probe_next(old(self).model()),
    ;

    /// Dispatches one request: consumes it and produces a handle that
    /// resolves to exactly one response or exactly one error. Must only be
    /// called on a component whose probe reports ready.
    fn call(&mut self, request: Request<ReqBody>) -> (pr: PendingResult<
        Response<Self::ResBody>,
        Self::Error,
    >)
        requires
            ready_ok(Self::probe_of(old(self).model())),
        ensures
            pr == PendingResult::Resolved(Self::dispatch_of(old(self).model(), request)),
            final(self).model() == Self::dispatch_next(old(self).model(), request),
    ;

    /// Probing is idempotent: a component whose probe reports ready keeps
    /// reporting ready under further probes, until a dispatch intervenes.
    /// Probing can prepare capacity; it can never itself take a ready
    /// component permanently out of service.
    proof fn probe_keeps_ready(m: Self::Model)
        requires
            ready_ok(Self::probe_of(m)),
        ensures
            ready_ok(Self::probe_of(Self::probe_next(m))),
    ;

    /// Probing is side-effect-free with respect to dispatch: however often
    /// a component is probed, the outcome and follow-on state of the next
    /// dispatch are unchanged — a dispatch after any number of probes
    /// behaves exactly as if readiness had been immediate.
    proof fn probe_keeps_dispatch(m: Self::Model, request: Request<ReqBody>)
        ensures
            Self::dispatch_of(Self::probe_next(m), request) == Self::dispatch_of(m, request),
            Self::dispatch_next(Self::probe_next(m), request) == Self::probe_next(
                Self::dispatch_next(m, request),
            ),
    ;
}

/// The capability contract: the minimal surface every RPC transport must
/// expose to the RPC call layer, independent of what concrete networking
/// stack backs it.
///
/// It is the same readiness-probe + dispatch shape as the generic service
/// pattern, but its response-body type carries both body capabilities and
/// every failure is delivered as the common error type. Do not implement
/// this trait by hand for a component that already implements [`Service`]:
/// the blanket implementation below adapts it automatically.
pub trait GrpcService<ReqBody>: Sized {
    /// The response-body type: a streaming body usable by the RPC framing
    /// layer.
    type ResponseBody: RpcBody;

    /// The ghost model of the transport state.
    type Model;

    /// Spec view: the model of the current state.
    spec fn grpc_model(&self) -> Self::Model;

    /// Spec view: what a probe in model state `m` reports, under the
    /// common-error view.
    spec fn grpc_probe_of(m: Self::Model) -> Readiness<ErrorModel>;

    /// Spec view: the model state after one probe in state `m`.
    spec fn grpc_probe_next(m: Self::Model) -> Self::Model;

    /// Spec view: the outcome a dispatch of `request` in state `m`
    /// resolves to, under the common-error view.
    spec fn grpc_dispatch_of(m: Self::Model, request: Request<ReqBody>) -> Result<
        Response<Self::ResponseBody>,
        ErrorModel,
    >;

    /// Spec view: the model state after dispatching `request` in state `m`.
    spec fn grpc_dispatch_next(m: Self::Model, request: Request<ReqBody>) -> Self::Model;

    /// Probes whether the transport can accept a request now; a readiness
    /// failure is delivered as the common error type.
    fn poll_ready(&mut self) -> (r: Readiness<TransportError>)
        ensures
            probe_agrees(r, Self::grpc_probe_of(old(self).grpc_model())),
            final(self).grpc_model() == Self::grpc_probe_next(old(self).grpc_model()),
    ;

    /// Dispatches one request; the handle resolves to exactly one response
    /// or exactly one common-typed error. Must only be called on a
    /// transport whose probe reports ready.
    fn call(&mut self, request: Request<ReqBody>) -> (pr: PendingResult<
        Response<Self::ResponseBody>,
        TransportError,
    >)
        requires
            ready_ok(Self::grpc_probe_of(old(self).grpc_model())),
        ensures
            pr matches PendingResult::Resolved(out) && outcome_agrees(
                out,
                Self::grpc_dispatch_of(old(self).grpc_model(), request),
            ),
            final(self).grpc_model() == Self::grpc_dispatch_next(old(self).grpc_model(), request),
    ;

    /// Probing is idempotent, exactly as for the generic service pattern.
    proof fn grpc_probe_keeps_ready(m: Self::Model)
        requires
            ready_ok(Self::grpc_probe_of(m)),
        ensures
            ready_ok(Self::grpc_probe_of(Self::grpc_probe_next(m))),
    ;

    /// Probing never changes what a dispatch will produce, exactly as for
    /// the generic service pattern.
    proof fn grpc_probe_keeps_dispatch(m: Self::Model, request: Request<ReqBody>)
        ensures
            Self::grpc_dispatch_of(Self::grpc_probe_next(m), request) == Self::grpc_dispatch_of(
                m,
                request,
            ),
            Self::grpc_dispatch_next(Self::grpc_probe_next(m), request) == Self::grpc_probe_next(
                Self::grpc_dispatch_next(m, request),
            ),
    ;
}

/// The universal adapter: any component implementing the generic service
/// pattern satisfies the capability contract, provided its error type
/// converts into the common error type and its response-body type has both
/// body capabilities (whose own streaming error also converts; that
/// constraint sits on [`StreamingBody::Error`] here).
///
/// Every operation is a direct forward to the component's own operation —
/// same model, same transitions, same reports and outcomes — with only the
/// error conversion applied at the boundary. No buffering, no retry, no
/// behavioral change.
impl<T, ReqBody> GrpcService<ReqBody> for T where
    T: Service<ReqBody>,
    T::Error: IntoTransportError,
    T::ResBody: RpcBody,
    <T::ResBody as StreamingBody>::Error: IntoTransportError,
 {
    type ResponseBody = T::ResBody;

    type Model = T::Model;

    open spec fn grpc_model(&self) -> T::Model {
        self.model()
    }

    open spec fn grpc_probe_of(m: T::Model) -> Readiness<ErrorModel> {
        lift_probe(T::probe_of(m))
    }

    open spec fn grpc_probe_next(m: T::Model) -> T::Model {
        T::probe_next(m)
    }

    open spec fn grpc_dispatch_of(m: T::Model, request: Request<ReqBody>) -> Result<
        Response<T::ResBody>,
        ErrorModel,
    > {
        lift_outcome(T::dispatch_of(m, request))
    }

    open spec fn grpc_dispatch_next(m: T::Model, request: Request<ReqBody>) -> T::Model {
        T::dispatch_next(m, request)
    }

    fn poll_ready(&mut self) -> (r: Readiness<TransportError>) {
        match <T as Service<ReqBody>>::poll_ready(self) {
            Readiness::Pending => Readiness::Pending,
            Readiness::Ready(Ok(())) => Readiness::Ready(Ok(())),
            Readiness::Ready(Err(e)) => Readiness::Ready(Err(e.into_transport())),
        }
    }

    fn call(&mut self, request: Request<ReqBody>) -> (pr: PendingResult<
        Response<T::ResBody>,
        TransportError,
    >) {
        proof {
            match T::probe_of(self.model()) {
                Readiness::Ready(Ok(u)) => {
                    assert(u == ());
                    assert(ready_ok(T::probe_of(self.model())));
                },
                _ => {
                    assert(false);
                },
            }
        }
        let inner = <T as Service<ReqBody>>::call(self, request);
        match inner {
            PendingResult::Resolved(Ok(resp)) => PendingResult::resolved(Ok(resp)),
            PendingResult::Resolved(Err(e)) => PendingResult::resolved(Err(e.into_transport())),
            _ => {
                proof {
                    assert(false);
                }
                PendingResult::Pending
            },
        }
    }

    proof fn grpc_probe_keeps_ready(m: T::Model) {
        match T::probe_of(m) {
            Readiness::Ready(Ok(u)) => {
                assert(u == ());
                assert(ready_ok(T::probe_of(m)));
            },
            _ => {
                assert(false);
            },
        }
        T::probe_keeps_ready(m);
    }

    proof fn grpc_probe_keeps_dispatch(m: T::Model, request: Request<ReqBody>) {
        T::probe_keeps_dispatch(m, request);
    }
}

/// The model state a transport reaches after `k` probes from state `m`.
pub open spec fn probe_iter<S: GrpcService<ReqBody>, ReqBody>(m: S::Model, k: nat) -> S::Model
    decreases k,
{
    if k == 0 {
        m
    } else {
        probe_iter::<S, ReqBody>(S::grpc_probe_next(m), (k - 1) as nat)
    }
}

/// Probing one more time from the back: after `k + 1` probes the model is
/// one probe step past the model after `k` probes.
pub proof fn lemma_probe_iter_step<S: GrpcService<ReqBody>, ReqBody>(m: S::Model, k: nat)
    ensures
        probe_iter::<S, ReqBody>(m, k + 1) == S::grpc_probe_next(probe_iter::<S, ReqBody>(m, k)),
    decreases k,
{
    let nm = S::grpc_probe_next(m);
    if k == 0 {
        assert(probe_iter::<S, ReqBody>(m, 1) == probe_iter::<S, ReqBody>(nm, 0));
        assert(probe_iter::<S, ReqBody>(nm, 0) == nm);
    } else {
        lemma_probe_iter_step::<S, ReqBody>(nm, (k - 1) as nat);
        assert(probe_iter::<S, ReqBody>(m, k + 1) == probe_iter::<S, ReqBody>(nm, k));
        assert(probe_iter::<S, ReqBody>(m, k) == probe_iter::<S, ReqBody>(nm, (k - 1) as nat));
    }
}

/// However many probes intervene, the outcome the next dispatch resolves
/// to is the outcome it would have resolved to at once.
pub proof fn lemma_probes_keep_dispatch<S: GrpcService<ReqBody>, ReqBody>(
    m: S::Model,
    request: Request<ReqBody>,
    k: nat,
)
    ensures
        S::grpc_dispatch_of(probe_iter::<S, ReqBody>(m, k), request) == S::grpc_dispatch_of(
            m,
            request,
        ),
    decreases k,
{
    if k > 0 {
        S::grpc_probe_keeps_dispatch(m, request);
        lemma_probes_keep_dispatch::<S, ReqBody>(S::grpc_probe_next(m), request, (k - 1) as nat);
    }
}

/// The outcome of driving one request through a transport with
/// [`drive`]: exactly one of a dispatch outcome, a readiness failure, or
/// an exhausted probe budget is observable, never two.
#[derive(Debug)]
pub enum DriveOutcome<ReqBody, B> {
    /// A probe reported ready and the request was dispatched; this is the
    /// dispatch's single terminal outcome.
    Dispatched(Result<Response<B>, TransportError>),
    /// A probe reported this readiness failure; the request was not
    /// consumed and is handed back.
    Rejected(TransportError, Request<ReqBody>),
    /// All `budget` probes reported "not ready yet"; the request was not
    /// consumed and is handed back.
    StillBusy(Request<ReqBody>),
}

/// Drives one request through a transport under the probe-before-dispatch
/// protocol: probes until the transport reports ready — at most `budget`
/// times — then dispatches and observes the single outcome.
///
/// A dispatch reached after any number of "not ready yet" probes resolves
/// to exactly the outcome an immediately-ready transport would have given:
/// the outcome below is pinned to the dispatch outcome of the transport's
/// starting state.
#[verifier::loop_isolation(false)]
pub fn drive<S, ReqBody>(svc: &mut S, request: Request<ReqBody>, budget: usize) -> (out:
    DriveOutcome<ReqBody, S::ResponseBody>) where S: GrpcService<ReqBody>
    ensures
        out matches DriveOutcome::Dispatched(res) ==> {
            &&& outcome_agrees(res, S::grpc_dispatch_of(old(svc).grpc_model(), request))
            &&& exists|k: nat|
                k < budget && ready_ok(
                    #[trigger] S::grpc_probe_of(
                        probe_iter::<S, ReqBody>(old(svc).grpc_model(), k),
                    ),
                ) && final(svc).grpc_model() == S::grpc_dispatch_next(
                    probe_iter::<S, ReqBody>(old(svc).grpc_model(), k + 1),
                    request,
                )
        },
        out matches DriveOutcome::Rejected(te, back) ==> {
            &&& back == request
            &&& exists|k: nat|
                #![trigger S::grpc_probe_of(probe_iter::<S, ReqBody>(old(svc).grpc_model(), k))]
                {
                    &&& k < budget
                    &&& (S::grpc_probe_of(probe_iter::<S, ReqBody>(old(svc).grpc_model(), k))
                        matches Readiness::Ready(Err(em)) && te@ == em && final(svc).grpc_model()
                        == probe_iter::<S, ReqBody>(old(svc).grpc_model(), k + 1))
                }
        },
        out matches DriveOutcome::StillBusy(back) ==> {
            &&& back == request
            &&& forall|k: nat|
                k < budget ==> (#[trigger] S::grpc_probe_of(
                    probe_iter::<S, ReqBody>(old(svc).grpc_model(), k),
                )) is Pending
            &&& final(svc).grpc_model() == probe_iter::<S, ReqBody>(
                old(svc).grpc_model(),
                budget as nat,
            )
        },
{
    let ghost m0 = svc.grpc_model();
    let mut i: usize = 0;
    while i < budget
        invariant
            i <= budget,
            svc.grpc_model() == probe_iter::<S, ReqBody>(m0, i as nat),
            forall|k: nat|
                k < i ==> (#[trigger] S::grpc_probe_of(probe_iter::<S, ReqBody>(m0, k))) is Pending,
        decreases budget - i,
    {
        let ghost mi = svc.grpc_model();
        let r = svc.poll_ready();
        proof {
            lemma_probe_iter_step::<S, ReqBody>(m0, i as nat);
        }
        match r {
            Readiness::Pending => {
                proof {
                    assert forall|k: nat| k < i + 1 implies (#[trigger] S::grpc_probe_of(
                        probe_iter::<S, ReqBody>(m0, k),
                    )) is Pending by {
                        if k == i {
                            assert(S::grpc_probe_of(mi) is Pending);
                        }
                    }
                }
                i += 1;
            },
            Readiness::Ready(Ok(())) => {
                proof {
                    match S::grpc_probe_of(mi) {
                        Readiness::Ready(Ok(u)) => {
                            assert(u == ());
                            assert(ready_ok(S::grpc_probe_of(mi)));
                        },
                        _ => {
                            assert(false);
                        },
                    }
                    S::grpc_probe_keeps_ready(mi);
                    assert((i + 1) as nat == (i as nat) + 1);
                    lemma_probes_keep_dispatch::<S, ReqBody>(m0, request, (i as nat) + 1);
                    assert(S::grpc_probe_next(mi) == probe_iter::<S, ReqBody>(m0, (i as nat) + 1));
                    assert(S::grpc_dispatch_of(probe_iter::<S, ReqBody>(m0, (i as nat) + 1), request)
                        == S::grpc_dispatch_of(m0, request));
                }
                let pr = svc.call(request);
                match pr {
                    PendingResult::Resolved(res) => {
                        proof {
                            assert(ready_ok(
                                S::grpc_probe_of(probe_iter::<S, ReqBody>(m0, i as nat)),
                            ));
                        }
                        return DriveOutcome::Dispatched(res);
                    },
                    _ => {
                        proof {
                            assert(false);
                        }
                        return DriveOutcome::Dispatched(
                            Err(TransportError::new(0, String::new())),
                        );
                    },
                }
            },
            Readiness::Ready(Err(te)) => {
                proof {
                    assert((S::grpc_probe_of(probe_iter::<S, ReqBody>(m0, i as nat)))
                        matches Readiness::Ready(Err(em)) && te@ == em);
                }
                return DriveOutcome::Rejected(te, request);
            },
        }
    }
    DriveOutcome::StillBusy(request)
}

/// Round-trip transparency of adaptation: accessed through the adapted
/// view, a component has exactly the behavior it has when accessed
/// directly. The adapted view shares the component's model, makes the very
/// same state transitions, and reports the very same probe results and
/// dispatch outcomes — only seen through the error conversion the adapter
/// is allowed to apply.
pub proof fn lemma_adaptation_transparent<T, ReqBody>(m: T::Model, request: Request<ReqBody>) where
    T: Service<ReqBody>,
    T::Error: IntoTransportError,
    T::ResBody: RpcBody,
    <T::ResBody as StreamingBody>::Error: IntoTransportError,

    ensures
        <T as GrpcService<ReqBody>>::grpc_probe_of(m) == lift_probe(T::probe_of(m)),
        <T as GrpcService<ReqBody>>::grpc_probe_next(m) == T::probe_next(m),
        <T as GrpcService<ReqBody>>::grpc_dispatch_of(m, request) == lift_outcome(
            T::dispatch_of(m, request),
        ),
        <T as GrpcService<ReqBody>>::grpc_dispatch_next(m, request) == T::dispatch_next(m, request),
{
}

} // verus!
