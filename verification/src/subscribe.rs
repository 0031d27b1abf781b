//! The subscription listener: one subscribe frame out on a fresh connection,
//! then an unbounded receive loop that decodes every inbound frame and emits
//! its value, until the stream ends (success) or a frame fails to decode
//! (failure). The listener is a state machine; the embedding program sends
//! the one frame, feeds every inbound outcome in, and performs the emissions.
use vstd::prelude::*;

use crate::client::{Client, Request};
use crate::errors::ClientError;
use crate::events::RecvOutcome;
use crate::json::{decode, decode_ok, decoded, Frame};
use crate::wire::{encode_request, request_wire};

verus! {

/// Where a subscription stands: still listening for frames, or over.
pub enum SubPhase {
    Listening,
    Done,
}

/// What the listener asks for after one inbound outcome: emit this value and
/// keep listening, or stop with the subscription's final result.
pub enum SubStep {
    Emit(serde_json::Value),
    Stop(Result<(), ClientError>),
}

/// One subscription in progress. The ghost fields record the request the
/// subscription was started with, every frame received, and every value
/// emitted.
pub struct Subscription {
    pub phase: SubPhase,
    pub received: Ghost<Seq<Frame>>,
    pub emitted: Ghost<Seq<serde_json::Value>>,
    pub req_id: Ghost<nat>,
    pub req_method: Ghost<Seq<char>>,
    pub req_params: Ghost<serde_json::Value>,
}

impl Subscription {
    /// The emitted values are exactly the decoded values of the received
    /// frames, in arrival order; while the subscription is listening every
    /// received frame has been emitted, and only a final frame that failed
    /// to decode can go unemitted.
    pub open spec fn wf(self) -> bool {
        &&& self.emitted@.len() <= self.received@.len()
        &&& (forall|i: int|
            0 <= i < self.emitted@.len() ==> decode_ok(#[trigger] self.received@[i])
                && self.emitted@[i] == decoded(self.received@[i]))
        &&& self.received@.len() <= self.emitted@.len() + 1
        &&& (self.phase is Listening ==> self.emitted@.len() == self.received@.len())
        &&& (self.received@.len() == self.emitted@.len() + 1 ==> !decode_ok(
            self.received@.last(),
        ))
    }

    /// Begins a subscription: returns the machine, now listening, and the
    /// text of the subscribe frame to send first.
    fn start(req: &Request) -> (r: (Subscription, String))
        ensures
            ({
                let (s, frame) = r;
                &&& frame@ == request_wire(req.id as nat, req.method@, req.params)
                &&& s.phase is Listening
                &&& s.received@ == Seq::<Frame>::empty()
                &&& s.emitted@ == Seq::<serde_json::Value>::empty()
                &&& s.req_id@ == req.id as nat
                &&& s.req_method@ == req.method@
                &&& s.req_params@ == req.params
                &&& s.wf()
            }),
    {
        let frame = encode_request(req);
        let s = Subscription {
            phase: SubPhase::Listening,
            received: Ghost(Seq::empty()),
            emitted: Ghost(Seq::empty()),
            req_id: Ghost(req.id as nat),
            req_method: Ghost(req.method@),
            req_params: Ghost(req.params),
        };
        (s, frame)
    }

    /// Consumes one inbound outcome. A frame that decodes is emitted and the
    /// subscription keeps listening; a frame that does not decode stops it
    /// with the `ProtocolError`; the stream ending stops it with success; a
    /// transport failure stops it with `ConnectionError`.
    pub fn on_message(self, o: RecvOutcome) -> (r: (Subscription, SubStep))
        requires
            self.phase is Listening,
            self.wf(),
        ensures
            ({
                let (s, step) = r;
                &&& s.req_id == self.req_id
                &&& s.req_method == self.req_method
                &&& s.req_params == self.req_params
                &&& s.wf()
                &&& match o {
                    RecvOutcome::Frame(f) => {
                        &&& s.received@ == self.received@ + seq![f]
                        &&& (decode_ok(f) ==> {
                            &&& s.phase is Listening
                            &&& s.emitted@ == self.emitted@ + seq![decoded(f)]
                            &&& step == SubStep::Emit(decoded(f))
                        })
                        &&& (!decode_ok(f) ==> {
                            &&& s.phase is Done
                            &&& s.emitted@ == self.emitted@
                            &&& (step matches SubStep::Stop(res) && res matches Err(e)
                                && e matches ClientError::ProtocolError { .. })
                        })
                    },
                    RecvOutcome::Closed => {
                        &&& s.phase is Done
                        &&& s.received@ == self.received@
                        &&& s.emitted@ == self.emitted@
                        &&& step == SubStep::Stop(Result::<(), ClientError>::Ok(()))
                    },
                    RecvOutcome::Failed(d) => {
                        &&& s.phase is Done
                        &&& s.received@ == self.received@
                        &&& s.emitted@ == self.emitted@
                        &&& step == SubStep::Stop(
                            Result::<(), ClientError>::Err(
                                ClientError::ConnectionError { detail: d },
                            ),
                        )
                    },
                }
            }),
    {
        let Subscription { phase, received, emitted, req_id, req_method, req_params } = self;
        match o {
            RecvOutcome::Frame(f) => {
                let ghost f0 = f;
                let ghost received1: Seq<Frame> = received@ + seq![f0];
                match decode(f) {
                    Ok(v) => {
                        let ghost v0 = v;
                        let ghost emitted1: Seq<serde_json::Value> = emitted@ + seq![v0];
                        let s = Subscription {
                            phase: SubPhase::Listening,
                            received: Ghost(received1),
                            emitted: Ghost(emitted1),
                            req_id,
                            req_method,
                            req_params,
                        };
                        (s, SubStep::Emit(v))
                    },
                    Err(e) => {
                        let s = Subscription {
                            phase: SubPhase::Done,
                            received: Ghost(received1),
                            emitted,
                            req_id,
                            req_method,
                            req_params,
                        };
                        (s, SubStep::Stop(Err(e)))
                    },
                }
            },
            RecvOutcome::Closed => {
                let s = Subscription {
                    phase: SubPhase::Done,
                    received,
                    emitted,
                    req_id,
                    req_method,
                    req_params,
                };
                (s, SubStep::Stop(Ok(())))
            },
            RecvOutcome::Failed(d) => {
                let s = Subscription {
                    phase: SubPhase::Done,
                    received,
                    emitted,
                    req_id,
                    req_method,
                    req_params,
                };
                (s, SubStep::Stop(Err(ClientError::ConnectionError { detail: d })))
            },
        }
    }
}

impl Client {
    /// Begins a subscription on a fresh connection: returns the listener and
    /// the text of the subscribe frame to send first.
    pub fn public_subscribe(&self, req: &Request) -> (r: (Subscription, String))
        ensures
            ({
                let (s, frame) = r;
                &&& frame@ == request_wire(req.id as nat, req.method@, req.params)
                &&& s.phase is Listening
                &&& s.received@ == Seq::<Frame>::empty()
                &&& s.emitted@ == Seq::<serde_json::Value>::empty()
                &&& s.req_id@ == req.id as nat
                &&& s.req_method@ == req.method@
                &&& s.req_params@ == req.params
                &&& s.wf()
            }),
    {
        Subscription::start(req)
    }
}

/// Law: a subscription emits exactly the decoded values of the frames it has
/// received, in arrival order; while it is listening, every received frame
/// has been emitted, so a stream of frames `F1, ..., Fn` followed by the
/// stream's end emits exactly their values in order.
pub proof fn lemma_subscription_emits_in_order(s: Subscription)
    requires
        s.wf(),
    ensures
        s.emitted@.len() <= s.received@.len(),
        forall|i: int|
            0 <= i < s.emitted@.len() ==> decode_ok(#[trigger] s.received@[i]) && s.emitted@[i]
                == decoded(s.received@[i]),
        s.phase is Listening ==> s.emitted@.len() == s.received@.len(),
{
}

} // verus!
