//! The wire form of outbound requests: one JSON-RPC 2.0 envelope as the text
//! of a single WebSocket text frame.
use vstd::prelude::*;
use vstd::string::StringExecFns;

use crate::client::{Client, Request};
use crate::digits::{dec_rep, u64_to_dec};
use crate::json::{json_quoted, json_text_of, quote_str, value_to_text};

verus! {

/// The text of the frame carrying a request: the JSON-RPC 2.0 envelope with
/// the version literal, the request identifier, the method name, and the
/// serialized parameters, in that order.
pub open spec fn request_wire(id: nat, method: Seq<char>, params: serde_json::Value) -> Seq<char> {
    "{\"jsonrpc\":\"2.0\",\"id\":"@ + dec_rep(id) + ",\"method\":"@ + json_quoted(method)
        + ",\"params\":"@ + json_text_of(params) + "}"@
}

/// The text of the frame carrying an authentication request: a JSON-RPC 2.0
/// envelope with request identifier 1, method `public/auth`, and the client
/// credentials under the `client_credentials` grant type.
pub open spec fn auth_wire(client_id: Seq<char>, client_secret: Seq<char>) -> Seq<char> {
    "{\"jsonrpc\":\"2.0\",\"id\":1,\"method\":\"public/auth\",\"params\":{\"grant_type\":\"client_credentials\",\"client_id\":"@
        + json_quoted(client_id) + ",\"client_secret\":"@ + json_quoted(client_secret) + "}}"@
}

/// Wraps a request into the text of its outbound frame. Cannot fail: every
/// request value has a wire form.
pub fn encode_request(req: &Request) -> (r: String)
    ensures
        r@ == request_wire(req.id as nat, req.method@, req.params),
{
    let mut r = String::from_str("{\"jsonrpc\":\"2.0\",\"id\":");
    let id_text = u64_to_dec(req.id);
    r.append(id_text.as_str());
    r.append(",\"method\":");
    let method_text = quote_str(req.method.as_str());
    r.append(method_text.as_str());
    r.append(",\"params\":");
    let params_text = value_to_text(&req.params);
    r.append(params_text.as_str());
    r.append("}");
    proof {
        assert(r@ =~= request_wire(req.id as nat, req.method@, req.params));
    }
    r
}

/// Builds the text of the authentication frame sent ahead of every private
/// call, from the stored credentials.
pub fn encode_auth_request(client: &Client) -> (r: String)
    ensures
        r@ == auth_wire(client.client_id@, client.client_secret@),
{
    let mut r = String::from_str(
        "{\"jsonrpc\":\"2.0\",\"id\":1,\"method\":\"public/auth\",\"params\":{\"grant_type\":\"client_credentials\",\"client_id\":",
    );
    let cid_text = quote_str(client.client_id.as_str());
    r.append(cid_text.as_str());
    r.append(",\"client_secret\":");
    let secret_text = quote_str(client.client_secret.as_str());
    r.append(secret_text.as_str());
    r.append("}}");
    proof {
        assert(r@ =~= auth_wire(client.client_id@, client.client_secret@));
    }
    r
}

} // verus!
