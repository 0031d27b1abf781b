//! The client and its configuration, and the structured form of an outbound
//! request.
use vstd::prelude::*;
use vstd::string::StringExecFns;

use crate::errors::ClientError;

verus! {

/// The immutable configuration of one client: the credential pair and the
/// endpoint URL of the exchange.
#[derive(Debug, Clone)]
pub struct Client {
    pub client_id: String,
    pub client_secret: String,
    pub client_url: String,
}

/// One outbound JSON-RPC call: the caller-chosen request identifier, the
/// method name, and the method's parameters as an arbitrary JSON value. The
/// `jsonrpc` version field is fixed by the wire encoding and not stored.
pub struct Request {
    pub id: u64,
    pub method: String,
    pub params: serde_json::Value,
}

impl Client {
    /// Constructs a client from the three required configuration values, each
    /// handed in as found (or not found) by the embedding program. Succeeds
    /// exactly when all three are present; otherwise fails with a
    /// `ConfigError` naming the first absent value, before any connection
    /// attempt can be made.
    pub fn new(
        client_id: Option<String>,
        client_secret: Option<String>,
        client_url: Option<String>,
    ) -> (r: Result<Client, ClientError>)
        ensures
            r is Ok <==> (client_id is Some && client_secret is Some && client_url is Some),
            r matches Ok(c) ==> {
                &&& Some(c.client_id) == client_id
                &&& Some(c.client_secret) == client_secret
                &&& Some(c.client_url) == client_url
            },
            r matches Err(e) ==> {
                &&& e matches ClientError::ConfigError { missing }
                &&& (client_id is None ==> missing@ == "CLIENT_ID"@)
                &&& (client_id is Some && client_secret is None ==> missing@ == "CLIENT_SECRET"@)
                &&& (client_id is Some && client_secret is Some ==> missing@ == "CLIENT_URL"@)
            },
    {
        match (client_id, client_secret, client_url) {
            (Some(id), Some(secret), Some(url)) => Ok(
                Client { client_id: id, client_secret: secret, client_url: url },
            ),
            (None, _, _) => Err(
                ClientError::ConfigError { missing: String::from_str("CLIENT_ID") },
            ),
            (Some(_), None, _) => Err(
                ClientError::ConfigError { missing: String::from_str("CLIENT_SECRET") },
            ),
            (Some(_), Some(_), None) => Err(
                ClientError::ConfigError { missing: String::from_str("CLIENT_URL") },
            ),
        }
    }
}

} // verus!
