//! The public call executor: one request frame out, one response frame in,
//! on a fresh connection that is discarded afterwards. The executor is a
//! state machine; the embedding program performs the sends and receives it
//! asks for and feeds the outcomes back in.
use vstd::prelude::*;

use crate::client::{Client, Request};
use crate::errors::ClientError;
use crate::events::{recv_failure, recv_failure_error, IoStep, RecvOutcome};
use crate::json::{decode, decode_result_matches};
use crate::wire::{encode_request, request_wire};

verus! {

/// Where a public call stands: still owed its single inbound frame, or over.
pub enum PublicPhase {
    Awaiting,
    Done,
}

/// One public request/response cycle in progress. The ghost fields record the
/// request the call was started with and the transcript of every transport
/// step taken on its behalf.
pub struct PublicCall {
    pub phase: PublicPhase,
    pub trace: Ghost<Seq<IoStep>>,
    pub req_id: Ghost<nat>,
    pub req_method: Ghost<Seq<char>>,
    pub req_params: Ghost<serde_json::Value>,
}

impl PublicCall {
    /// The text of the one frame this call ever sends.
    pub open spec fn request_text(self) -> Seq<char> {
        request_wire(self.req_id@, self.req_method@, self.req_params@)
    }

    /// The transcript is exactly what the protocol allows: the encoded
    /// request goes out first, everything after it is inbound, and the call
    /// consumes exactly one inbound outcome before it is over.
    pub open spec fn wf(self) -> bool {
        &&& self.trace@.len() >= 1
        &&& self.trace@[0] == IoStep::Sent(self.request_text())
        &&& (forall|i: int|
            1 <= i < self.trace@.len() ==> (#[trigger] self.trace@[i]) matches IoStep::Got(_))
        &&& (self.phase is Awaiting ==> self.trace@.len() == 1)
        &&& (self.phase is Done ==> self.trace@.len() == 2)
    }

    /// Begins a public call: returns the machine, now owed one inbound
    /// outcome, and the text of the request frame to send first.
    fn start(req: &Request) -> (r: (PublicCall, String))
        ensures
            ({
                let (m, frame) = r;
                &&& frame@ == request_wire(req.id as nat, req.method@, req.params)
                &&& m.phase is Awaiting
                &&& m.req_id@ == req.id as nat
                &&& m.req_method@ == req.method@
                &&& m.req_params@ == req.params
                &&& m.trace@ == seq![IoStep::Sent(frame@)]
                &&& m.wf()
            }),
    {
        let frame = encode_request(req);
        let ghost frame_text = frame@;
        let ghost trace0: Seq<IoStep> = seq![IoStep::Sent(frame_text)];
        let m = PublicCall {
            phase: PublicPhase::Awaiting,
            trace: Ghost(trace0),
            req_id: Ghost(req.id as nat),
            req_method: Ghost(req.method@),
            req_params: Ghost(req.params),
        };
        (m, frame)
    }

    /// Consumes the one inbound outcome of the call. A frame is decoded and
    /// returned as the response; a stream that ended first fails with
    /// `EmptyResponseError`; a transport failure fails with
    /// `ConnectionError`.
    pub fn on_reply(self, o: RecvOutcome) -> (r: (PublicCall, Result<serde_json::Value, ClientError>))
        requires
            self.phase is Awaiting,
            self.wf(),
        ensures
            ({
                let (m, res) = r;
                &&& m.phase is Done
                &&& m.req_id == self.req_id
                &&& m.req_method == self.req_method
                &&& m.req_params == self.req_params
                &&& m.trace@ == self.trace@ + seq![IoStep::Got(o)]
                &&& m.wf()
                &&& (o matches RecvOutcome::Frame(f) ==> decode_result_matches(f, res))
                &&& (!(o matches RecvOutcome::Frame(_)) ==> res == Result::<
                    serde_json::Value,
                    ClientError,
                >::Err(recv_failure(o)))
            }),
    {
        let ghost o0 = o;
        let PublicCall { phase, trace, req_id, req_method, req_params } = self;
        let res = match o {
            RecvOutcome::Frame(f) => decode(f),
            other => Err(recv_failure_error(other)),
        };
        let ghost trace1: Seq<IoStep> = trace@ + seq![IoStep::Got(o0)];
        let m = PublicCall {
            phase: PublicPhase::Done,
            trace: Ghost(trace1),
            req_id,
            req_method,
            req_params,
        };
        (m, res)
    }
}

impl Client {
    /// Begins a one-shot public request/response cycle on a fresh connection:
    /// returns the call, owed exactly one inbound outcome, and the text of
    /// the one frame to send first.
    pub fn public_api(&self, req: &Request) -> (r: (PublicCall, String))
        ensures
            ({
                let (m, frame) = r;
                &&& frame@ == request_wire(req.id as nat, req.method@, req.params)
                &&& m.phase is Awaiting
                &&& m.req_id@ == req.id as nat
                &&& m.req_method@ == req.method@
                &&& m.req_params@ == req.params
                &&& m.trace@ == seq![IoStep::Sent(frame@)]
                &&& m.wf()
            }),
    {
        PublicCall::start(req)
    }
}

/// Law: on every run of the public call executor, exactly one outbound frame
/// is sent — the encoded request — and it goes out before any inbound
/// outcome is consumed.
pub proof fn lemma_public_call_sends_one_frame_first(m: PublicCall)
    requires
        m.wf(),
    ensures
        m.trace@.len() >= 1,
        m.trace@[0] == IoStep::Sent(request_wire(m.req_id@, m.req_method@, m.req_params@)),
        forall|i: int|
            1 <= i < m.trace@.len() ==> !((#[trigger] m.trace@[i]) matches IoStep::Sent(_)),
{
}

} // verus!
