//! Outgoing HTTP requests, sent by the host on a plugin's behalf.

use crate::error::{lift, lifted, VtxResult};
use crate::host::Host;
use vstd::prelude::*;

verus! {

/// A request for the host's HTTP client.
pub struct HttpClientRequest<B> {
    pub method: String,
    pub url: String,
    pub headers: Vec<(String, String)>,
    pub body: Option<B>,
}

/// What the host's HTTP client brought back.
pub struct HttpClientResponse<B> {
    pub status: u16,
    pub headers: Vec<(String, String)>,
    pub body: Option<B>,
}

/// Another name for `HttpClientRequest`.
pub type Request<B> = HttpClientRequest<B>;

/// Another name for `HttpClientResponse`.
pub type Response<B> = HttpClientResponse<B>;

/// Sends `req` through the host. A refusal of the host is classified by its
/// message.
pub fn request<H: Host>(host: &H, req: HttpClientRequest<H::Buffer>) -> (r: VtxResult<
    HttpClientResponse<H::Buffer>,
>)
    ensures
        exists|reply: Result<HttpClientResponse<H::Buffer>, String>|
            call_ensures(H::http_request, (host, req), reply) && r == lifted(reply),
{
    let reply = host.http_request(req);
    let ghost seen = reply;
    let r = lift(reply);
    assert(call_ensures(H::http_request, (host, req), seen) && r == lifted(seen));
    r
}

} // verus!
