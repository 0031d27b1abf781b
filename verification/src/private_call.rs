//! The authenticated call executor: on one fresh connection, an
//! authentication request goes out first; the arrival of one inbound frame —
//! whose content is deliberately not inspected — gates the caller's request,
//! which is then answered by exactly one more inbound frame. The executor is
//! a state machine; the embedding program performs the sends and receives it
//! asks for and feeds the outcomes back in.
use vstd::prelude::*;
use vstd::pervasive::unreached;

use crate::client::{Client, Request};
use crate::errors::ClientError;
use crate::events::{recv_failure, recv_failure_error, IoStep, RecvOutcome};
use crate::json::{decode, decode_result_matches};
use crate::wire::{auth_wire, encode_auth_request, encode_request, request_wire};

verus! {

/// Where an authenticated call stands: owed the authentication
/// acknowledgment (while still holding the caller's request frame, unsent),
/// owed the response to the caller's request, or over.
pub enum PrivatePhase {
    AwaitingAuthAck { request_frame: String },
    AwaitingResponse,
    Done,
}

/// What the executor asks for after the authentication acknowledgment:
/// proceed by sending the caller's request frame, or abort with the error the
/// call fails with.
pub enum AuthStep {
    Proceed(String),
    Abort(ClientError),
}

/// One authenticated request/response cycle in progress. The ghost fields
/// record the credentials and request the call was started with and the
/// transcript of every transport step taken on its behalf.
pub struct PrivateCall {
    pub phase: PrivatePhase,
    pub trace: Ghost<Seq<IoStep>>,
    pub cid: Ghost<Seq<char>>,
    pub csec: Ghost<Seq<char>>,
    pub req_id: Ghost<nat>,
    pub req_method: Ghost<Seq<char>>,
    pub req_params: Ghost<serde_json::Value>,
}

impl PrivateCall {
    /// The text of the authentication frame, always the first frame sent.
    pub open spec fn auth_text(self) -> Seq<char> {
        auth_wire(self.cid@, self.csec@)
    }

    /// The text of the frame carrying the caller's request.
    pub open spec fn request_text(self) -> Seq<char> {
        request_wire(self.req_id@, self.req_method@, self.req_params@)
    }

    /// The transcript is exactly what the protocol allows: the
    /// authentication frame goes out first; the caller's request goes out
    /// only after the inbound stream yielded one item; a stream that ends
    /// instead ends the call at once, with nothing more sent.
    pub open spec fn wf(self) -> bool {
        &&& self.trace@.len() >= 1
        &&& self.trace@[0] == IoStep::Sent(self.auth_text())
        &&& match self.phase {
            PrivatePhase::AwaitingAuthAck { request_frame } => {
                &&& self.trace@.len() == 1
                &&& request_frame@ == self.request_text()
            },
            PrivatePhase::AwaitingResponse => {
                &&& self.trace@.len() == 3
                &&& (self.trace@[1] matches IoStep::Got(o) && !(o matches RecvOutcome::Closed))
                &&& self.trace@[2] == IoStep::Sent(self.request_text())
            },
            PrivatePhase::Done => {
                ||| {
                    &&& self.trace@.len() == 2
                    &&& self.trace@[1] == IoStep::Got(RecvOutcome::Closed)
                }
                ||| {
                    &&& self.trace@.len() == 4
                    &&& (self.trace@[1] matches IoStep::Got(o) && !(o matches RecvOutcome::Closed))
                    &&& self.trace@[2] == IoStep::Sent(self.request_text())
                    &&& (self.trace@[3] matches IoStep::Got(_))
                }
            },
        }
    }

    /// Begins an authenticated call: returns the machine, now owed the
    /// authentication acknowledgment, and the text of the authentication
    /// frame to send first. The caller's request is encoded now but held
    /// back.
    fn start(client: &Client, req: &Request) -> (r: (PrivateCall, String))
        ensures
            ({
                let (m, frame) = r;
                &&& frame@ == auth_wire(client.client_id@, client.client_secret@)
                &&& (m.phase matches PrivatePhase::AwaitingAuthAck { .. })
                &&& m.cid@ == client.client_id@
                &&& m.csec@ == client.client_secret@
                &&& m.req_id@ == req.id as nat
                &&& m.req_method@ == req.method@
                &&& m.req_params@ == req.params
                &&& m.trace@ == seq![IoStep::Sent(frame@)]
                &&& m.wf()
            }),
    {
        let auth_frame = encode_auth_request(client);
        let request_frame = encode_request(req);
        let ghost auth_text = auth_frame@;
        let ghost trace0: Seq<IoStep> = seq![IoStep::Sent(auth_text)];
        let m = PrivateCall {
            phase: PrivatePhase::AwaitingAuthAck { request_frame },
            trace: Ghost(trace0),
            cid: Ghost(client.client_id@),
            csec: Ghost(client.client_secret@),
            req_id: Ghost(req.id as nat),
            req_method: Ghost(req.method@),
            req_params: Ghost(req.params),
        };
        (m, auth_frame)
    }

    /// Consumes the outcome awaited as the authentication acknowledgment.
    /// If the stream yielded an item — its content is not inspected, and
    /// even a transport error counts as the awaited arrival — the call
    /// proceeds: the caller's request frame is handed out to be sent on the
    /// same connection. Only if the stream ended first does the call abort,
    /// with `EmptyResponseError`, and the caller's request is never sent.
    pub fn on_auth_ack(self, o: RecvOutcome) -> (r: (PrivateCall, AuthStep))
        requires
            self.phase matches PrivatePhase::AwaitingAuthAck { .. },
            self.wf(),
        ensures
            ({
                let (m, step) = r;
                &&& m.cid == self.cid
                &&& m.csec == self.csec
                &&& m.req_id == self.req_id
                &&& m.req_method == self.req_method
                &&& m.req_params == self.req_params
                &&& m.wf()
                &&& (!(o matches RecvOutcome::Closed) ==> {
                    &&& m.phase is AwaitingResponse
                    &&& (step matches AuthStep::Proceed(f) && f@ == self.request_text())
                    &&& m.trace@ == self.trace@ + seq![
                        IoStep::Got(o),
                        IoStep::Sent(self.request_text()),
                    ]
                })
                &&& (o matches RecvOutcome::Closed ==> {
                    &&& m.phase is Done
                    &&& step == AuthStep::Abort(ClientError::EmptyResponseError)
                    &&& m.trace@ == self.trace@ + seq![IoStep::Got(o)]
                })
            }),
    {
        let ghost o0 = o;
        let PrivateCall { phase, trace, cid, csec, req_id, req_method, req_params } = self;
        match (phase, o) {
            (_, RecvOutcome::Closed) => {
                let ghost trace1: Seq<IoStep> = trace@ + seq![IoStep::Got(o0)];
                let m = PrivateCall {
                    phase: PrivatePhase::Done,
                    trace: Ghost(trace1),
                    cid,
                    csec,
                    req_id,
                    req_method,
                    req_params,
                };
                (m, AuthStep::Abort(ClientError::EmptyResponseError))
            },
            (PrivatePhase::AwaitingAuthAck { request_frame }, _) => {
                let ghost trace1: Seq<IoStep> = trace@ + seq![
                    IoStep::Got(o0),
                    IoStep::Sent(request_frame@),
                ];
                let m = PrivateCall {
                    phase: PrivatePhase::AwaitingResponse,
                    trace: Ghost(trace1),
                    cid,
                    csec,
                    req_id,
                    req_method,
                    req_params,
                };
                (m, AuthStep::Proceed(request_frame))
            },
            (PrivatePhase::AwaitingResponse, _) | (PrivatePhase::Done, _) => unreached(),
        }
    }

    /// Consumes the outcome awaited as the response to the caller's request.
    /// A frame is decoded and returned as the response; a stream that ended
    /// first fails with `EmptyResponseError`; a transport failure fails with
    /// `ConnectionError`.
    pub fn on_response(self, o: RecvOutcome) -> (r: (
        PrivateCall,
        Result<serde_json::Value, ClientError>,
    ))
        requires
            self.phase is AwaitingResponse,
            self.wf(),
        ensures
            ({
                let (m, res) = r;
                &&& m.phase is Done
                &&& m.cid == self.cid
                &&& m.csec == self.csec
                &&& m.req_id == self.req_id
                &&& m.req_method == self.req_method
                &&& m.req_params == self.req_params
                &&& m.trace@ == self.trace@ + seq![IoStep::Got(o)]
                &&& m.wf()
                &&& (o matches RecvOutcome::Frame(f) ==> decode_result_matches(f, res))
                &&& (!(o matches RecvOutcome::Frame(_)) ==> res == Result::<
                    serde_json::Value,
                    ClientError,
                >::Err(recv_failure(o)))
            }),
    {
        let ghost o0 = o;
        let PrivateCall { phase, trace, cid, csec, req_id, req_method, req_params } = self;
        let res = match o {
            RecvOutcome::Frame(f) => decode(f),
            other => Err(recv_failure_error(other)),
        };
        let ghost trace1: Seq<IoStep> = trace@ + seq![IoStep::Got(o0)];
        let m = PrivateCall {
            phase: PrivatePhase::Done,
            trace: Ghost(trace1),
            cid,
            csec,
            req_id,
            req_method,
            req_params,
        };
        (m, res)
    }
}

impl Client {
    /// Begins an authenticated request/response cycle on a fresh connection:
    /// returns the call, owed the authentication acknowledgment, and the
    /// text of the authentication frame to send first.
    pub fn private_api(&self, req: &Request) -> (r: (PrivateCall, String))
        ensures
            ({
                let (m, frame) = r;
                &&& frame@ == auth_wire(self.client_id@, self.client_secret@)
                &&& (m.phase matches PrivatePhase::AwaitingAuthAck { .. })
                &&& m.cid@ == self.client_id@
                &&& m.csec@ == self.client_secret@
                &&& m.req_id@ == req.id as nat
                &&& m.req_method@ == req.method@
                &&& m.req_params@ == req.params
                &&& m.trace@ == seq![IoStep::Sent(frame@)]
                &&& m.wf()
            }),
    {
        PrivateCall::start(self, req)
    }
}

/// Law: an authenticated call sends the authentication request before
/// anything else; the caller's request is the only other frame it ever
/// sends, and it goes out only after the inbound stream has yielded one
/// item.
pub proof fn lemma_private_call_send_order(m: PrivateCall)
    requires
        m.wf(),
    ensures
        m.trace@.len() >= 1,
        m.trace@[0] == IoStep::Sent(auth_wire(m.cid@, m.csec@)),
        forall|i: int|
            1 <= i < m.trace@.len() && ((#[trigger] m.trace@[i]) matches IoStep::Sent(_)) ==> {
                &&& i == 2
                &&& m.trace@[i] == IoStep::Sent(
                    request_wire(m.req_id@, m.req_method@, m.req_params@),
                )
                &&& (m.trace@[1] matches IoStep::Got(o) && !(o matches RecvOutcome::Closed))
            },
{
    assert forall|i: int|
        1 <= i < m.trace@.len() && ((#[trigger] m.trace@[i]) matches IoStep::Sent(_)) implies {
        &&& i == 2
        &&& m.trace@[i] == IoStep::Sent(request_wire(m.req_id@, m.req_method@, m.req_params@))
        &&& (m.trace@[1] matches IoStep::Got(o) && !(o matches RecvOutcome::Closed))
    } by {
        if i != 2 {
            assert(i == 1 || i == 3);
        }
    }
}

} // verus!
