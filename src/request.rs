//! The requests that the library asks its caller to send.
use crate::json::Json;
use crate::path::{encode_segment, seg};
use crate::service_account::ServiceAccount;
use vstd::prelude::*;
use vstd::string::*;

verus! {

/// The address of the service's JSON API.
pub const BASE_URL: &'static str = "https://www.googleapis.com/storage/v1";

/// An HTTP method.
#[derive(Clone, Copy, Debug, PartialEq, Eq, Structural)]
pub enum Method {
    Get,
    Post,
    Put,
    Delete,
}

/// A request to send: its method, its full URL, its query pairs and its JSON body.
#[derive(Debug)]
pub struct Request {
    pub method: Method,
    pub url: String,
    pub query: Vec<(String, String)>,
    pub body: Option<Json>,
}

/// What requests are built from: the project that owns the resources, the service
/// account in use where one is configured, and the address of the API.
pub struct Client {
    /// The project id.
    pub project_id: String,
    /// The service account, where one is configured.
    pub service_account: Option<ServiceAccount>,
    /// The address that request paths are appended to.
    pub base_url: String,
}

impl Client {
    /// A client for `project_id` that talks to the service's public address.
    pub fn new(project_id: String, service_account: Option<ServiceAccount>) -> (r: Client)
        ensures
            r.project_id@ == project_id@,
            r.base_url@ == BASE_URL@,
            r.service_account == service_account,
    {
        Client { project_id, service_account, base_url: String::from_str(BASE_URL) }
    }

    /// A client that sends its requests to `base_url` instead, such as a local stand-in
    /// for the service.
    pub fn with_base_url(
        project_id: String,
        service_account: Option<ServiceAccount>,
        base_url: String,
    ) -> (r: Client)
        ensures
            r.project_id@ == project_id@,
            r.base_url@ == base_url@,
            r.service_account == service_account,
    {
        Client { project_id, service_account, base_url }
    }
}

/// `prefix`, then the literal `sep`, then the percent-encoding of `segment`.
pub fn join(prefix: String, sep: &str, segment: &str) -> (r: String)
    ensures
        r@ == prefix@ + sep@ + seg(segment@),
{
    let e = encode_segment(segment);
    prefix.concat(sep).concat(e.as_str())
}

/// A request without query or body.
pub fn plain(method: Method, url: String) -> (r: Request)
    ensures
        r.method == method,
        r.url@ == url@,
        r.query@.len() == 0,
        r.body is None,
{
    Request { method, url, query: Vec::new(), body: None }
}

/// A request with a JSON body and no query.
pub fn with_body(method: Method, url: String, body: Json) -> (r: Request)
    ensures
        r.method == method,
        r.url@ == url@,
        r.query@.len() == 0,
        r.body == Some(body),
{
    Request { method, url, query: Vec::new(), body: Some(body) }
}

} // verus!
