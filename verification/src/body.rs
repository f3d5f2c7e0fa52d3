//! The body capabilities a response payload must satisfy.
//!
//! A response body is a stream: chunked data, possibly followed by trailing
//! metadata, read piece by piece. [`StreamingBody`] is the generic capability;
//! [`RpcBody`] is the RPC-specific refinement the framing layer depends on,
//! which pins down how a data chunk is read as raw bytes. A component whose
//! response-body type lacks either capability does not satisfy the capability
//! contract — rejected where the adaptation is attempted, never at run time.

use vstd::prelude::*;

verus! {

/// One piece of a streamed body.
#[derive(Debug, PartialEq, Eq)]
pub enum BodyFrame<D> {
    /// A chunk of body data.
    Data(D),
    /// Trailing metadata, delivered after the last data chunk.
    Trailers(Vec<(String, String)>),
}

/// What one poll of a streaming body yields.
#[derive(Debug, PartialEq, Eq)]
pub enum BodyPoll<D, E> {
    /// The next frame of the stream.
    Frame(BodyFrame<D>),
    /// The stream ended cleanly; nothing further will be yielded.
    Finished,
    /// The stream failed mid-stream; its single terminal error.
    Failed(E),
}

/// The generic body capability: something that can be read as chunked data,
/// possibly with trailing metadata, and that may fail mid-stream through its
/// own error channel.
pub trait StreamingBody: Sized {
    /// The type of one data chunk.
    type Data;

    /// The error type emitted while streaming the body.
    type Error;

    /// Spec view: the frames this body has yet to yield, in order.
    spec fn remaining(&self) -> Seq<BodyFrame<Self::Data>>;

    /// Spec view: the failure the stream will report after its last frame,
    /// if it fails at all.
    spec fn pending_failure(&self) -> Option<Self::Error>;

    /// Yields the next piece of the stream, non-blocking.
    ///
    /// Frames come out in order; a failure is reported exactly once, after
    /// the last frame, and is terminal: a body that has delivered its
    /// failure (or its end) yields only `Finished` from then on. So one
    /// body stream surfaces at most one error, and no frame is lost before
    /// an error is surfaced.
    fn poll_frame(&mut self) -> (f: BodyPoll<Self::Data, Self::Error>)
        ensures
            old(self).remaining().len() > 0 ==> {
                &&& f matches BodyPoll::Frame(fr) && fr == old(self).remaining()[0]
                &&& final(self).remaining() == old(self).remaining().remove(0)
                &&& final(self).pending_failure() == old(self).pending_failure()
            },
            old(self).remaining().len() == 0 ==> match old(self).pending_failure() {
                Some(e) => {
                    &&& f == BodyPoll::<Self::Data, Self::Error>::Failed(e)
                    &&& final(self).remaining() == old(self).remaining()
                    &&& final(self).pending_failure() is None
                },
                None => {
                    &&& f is Finished
                    &&& final(self).remaining() == old(self).remaining()
                    &&& final(self).pending_failure() is None
                },
            },
    ;
}

/// The RPC-specific refinement of the body capability: the framing layer
/// reads each data chunk as raw bytes, and `data_view` says which bytes a
/// chunk stands for.
pub trait RpcBody: StreamingBody {
    /// Spec view: the raw bytes one data chunk stands for.
    spec fn data_view(data: Self::Data) -> Seq<u8>;

    /// Reads one data chunk as the raw bytes the RPC framing layer consumes.
    fn frame_bytes(data: &Self::Data) -> (b: Vec<u8>)
        ensures
            b@ == Self::data_view(*data),
    ;
}

} // verus!
