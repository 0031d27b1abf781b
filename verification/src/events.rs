//! What a call in progress sees of the transport: the outcome of reading one
//! item from the inbound half of the connection, and the transcript steps a
//! call records at the transport boundary.
use vstd::prelude::*;
use vstd::pervasive::unreached;

use crate::errors::ClientError;
use crate::json::Frame;

verus! {

/// The outcome of reading one item from the inbound stream, as reported by
/// the embedding program: a frame arrived, the stream ended, or the transport
/// failed with the given message.
pub enum RecvOutcome {
    Frame(Frame),
    Closed,
    Failed(String),
}

/// One step of a call's transport transcript: an outbound text frame with its
/// text, or one consumed inbound outcome.
pub enum IoStep {
    Sent(Seq<char>),
    Got(RecvOutcome),
}

/// The error owed when the inbound stream yields no frame while one is still
/// expected: the distinct `EmptyResponseError` when the stream simply ended,
/// and a `ConnectionError` carrying the transport's message when the
/// transport failed.
pub open spec fn recv_failure(o: RecvOutcome) -> ClientError
    recommends
        !(o matches RecvOutcome::Frame(_)),
{
    match o {
        RecvOutcome::Closed => ClientError::EmptyResponseError,
        RecvOutcome::Failed(d) => ClientError::ConnectionError { detail: d },
        RecvOutcome::Frame(_) => arbitrary(),
    }
}

/// Maps a frameless inbound outcome to the error the call fails with.
pub(crate) fn recv_failure_error(o: RecvOutcome) -> (r: ClientError)
    requires
        !(o matches RecvOutcome::Frame(_)),
    ensures
        r == recv_failure(o),
{
    match o {
        RecvOutcome::Closed => ClientError::EmptyResponseError,
        RecvOutcome::Failed(d) => ClientError::ConnectionError { detail: d },
        RecvOutcome::Frame(_) => unreached(),
    }
}

/// Law: a stream that ends with no frame delivered is reported as the
/// distinct `EmptyResponseError`, never conflated with a transport failure.
pub proof fn lemma_closed_stream_is_empty_response()
    ensures
        recv_failure(RecvOutcome::Closed) == ClientError::EmptyResponseError,
        forall|d: String|
            #[trigger] recv_failure(RecvOutcome::Failed(d)) matches ClientError::ConnectionError { .. },
{
}

} // verus!
