//! Requests, responses, and the builder that turns data and errors into
//! responses.
//!
//! A response never carries bytes of its own. A body is a handle: JSON is
//! first copied into host memory, and the response holds the handle that the
//! host gave for it.

use crate::error::{labelled, VtxError};
use crate::host::Host;
use crate::json::{
    bool_text, json_bool, json_number, json_string, new_object, object_insert, object_text,
    object_to_vec, string_text,
};
use crate::text::decimal;
use vstd::prelude::*;
use vstd::string::StringExecFns;
use vstd::utf8::encode_utf8;

verus! {

/// A request as the host hands it to a plugin.
pub struct Request<B> {
    pub method: String,
    pub path: String,
    pub query: String,
    pub headers: Vec<(String, String)>,
    pub body: Option<B>,
}

/// A response as a plugin hands it back: a status and, where there is a body,
/// the handle that holds it.
pub struct Response<B> {
    pub status: u16,
    pub body: Option<B>,
}

/// Builds responses.
pub struct ResponseBuilder;

/// The bytes of the JSON text `[]`.
pub open spec fn empty_array() -> Seq<u8> {
    seq![0x5bu8, 0x5du8]
}

/// The body that stands for serialized data: the data where serializing
/// succeeded, the empty array where it failed.
pub open spec fn json_payload(serialized: Result<Vec<u8>, serde_json::Error>) -> Seq<u8> {
    match serialized {
        Ok(bytes) => bytes@,
        Err(_) => empty_array(),
    }
}

/// `resp` has the given status, and its body is a handle that the host gave
/// when asked to hold exactly `payload`.
pub open spec fn carries<H: Host>(
    host: &H,
    resp: Response<H::Buffer>,
    status: u16,
    payload: Seq<u8>,
) -> bool {
    &&& resp.status == status
    &&& resp.body matches Some(handle) && exists|data: &[u8]|
        data@ == payload && #[trigger] call_ensures(H::create_memory_buffer, (host, data), handle)
}

/// A response whose body is the handle that the host gave for `data` carries
/// `data`.
proof fn lemma_carries<H: Host>(
    host: &H,
    resp: Response<H::Buffer>,
    data: &[u8],
    handle: H::Buffer,
)
    requires
        resp.body == Some(handle),
        call_ensures(H::create_memory_buffer, (host, data), handle),
    ensures
        carries(host, resp, resp.status, data@),
{
    assert(resp.body is Some);
    assert(resp.body->0 == handle);
}

/// The message that a response shows for an error.
pub open spec fn shown_message(err: VtxError) -> Seq<char> {
    match err {
        VtxError::AuthDenied(_) => "Authentication failed: "@ + err.display(),
        VtxError::NotFound(msg) => msg@,
        VtxError::PermissionDenied(msg) => msg@,
        VtxError::SerializationError(msg) => "Bad Request: "@ + msg@,
        VtxError::DatabaseError(msg) => "Database Error: "@ + msg@,
        VtxError::Internal(msg) => "Internal Error: "@ + msg@,
    }
}

/// The entries of the JSON object that reports an error.
pub open spec fn report_entries(status: u16, kind: Seq<char>, message: Seq<char>) -> Map<
    Seq<char>,
    Seq<char>,
> {
    Map::<Seq<char>, Seq<char>>::empty().insert("success"@, bool_text(false)).insert(
        "error"@,
        bool_text(true),
    ).insert("code"@, decimal(status as nat)).insert("type"@, string_text(kind)).insert(
        "message"@,
        string_text(message),
    )
}

/// What comes of serializing the JSON object that reports an error: its
/// bytes, or `None` where `serde_json` reports an error of its own.
pub open spec fn report_body(status: u16, kind: Seq<char>, message: Seq<char>) -> Option<Seq<u8>> {
    match object_text(report_entries(status, kind, message)) {
        Some(text) => Some(encode_utf8(text)),
        None => None,
    }
}

/// The body of a response that reports an error: the serialized report, or
/// the empty array where the report could not be serialized.
pub open spec fn report_payload(status: u16, kind: Seq<char>, message: Seq<char>) -> Seq<u8> {
    match report_body(status, kind, message) {
        Some(bytes) => bytes,
        None => empty_array(),
    }
}

/// `resp` reports an error: it has the error's status, and its body is a
/// handle that the host gave when asked to hold the report's payload.
pub open spec fn reports<H: Host>(
    host: &H,
    resp: Response<H::Buffer>,
    status: u16,
    kind: Seq<char>,
    message: Seq<char>,
) -> bool {
    carries(host, resp, status, report_payload(status, kind, message))
}

/// The lead of the message for a file that the host did not open.
pub open spec fn file_not_found_lead() -> Seq<char> {
    "File UUID not found: "@
}

/// The message that a response shows for `err`.
pub fn message_for(err: &VtxError) -> (message: String)
    ensures
        message@ == shown_message(*err),
{
    match err {
        VtxError::AuthDenied(_) => {
            let printed = err.to_string();
            labelled("Authentication failed: ", printed.as_str())
        },
        VtxError::NotFound(msg) => msg.clone(),
        VtxError::PermissionDenied(msg) => msg.clone(),
        VtxError::SerializationError(msg) => labelled("Bad Request: ", msg.as_str()),
        VtxError::DatabaseError(msg) => labelled("Database Error: ", msg.as_str()),
        VtxError::Internal(msg) => labelled("Internal Error: ", msg.as_str()),
    }
}

/// Builds the JSON object that reports an error, with the fields `success`
/// (false), `error` (true), `code`, `type` and `message`, and serializes it.
/// The result is what `serde_json` makes of exactly that object: its bytes
/// where serializing succeeds, the error where it fails.
pub fn report_bytes(status: u16, kind: &str, message: String) -> (serialized: Result<
    Vec<u8>,
    serde_json::Error,
>)
    ensures
        match serialized {
            Ok(bytes) => report_body(status, kind@, message@) == Some(bytes@),
            Err(_) => report_body(status, kind@, message@) is None,
        },
{
    let mut body = new_object();
    object_insert(&mut body, String::from_str("success"), json_bool(false));
    object_insert(&mut body, String::from_str("error"), json_bool(true));
    object_insert(&mut body, String::from_str("code"), json_number(status as u64));
    object_insert(&mut body, String::from_str("type"), json_string(String::from_str(kind)));
    object_insert(&mut body, String::from_str("message"), json_string(message));
    object_to_vec(&body)
}

impl ResponseBuilder {
    /// A response with status 200 whose body is the serialized data. Where
    /// serializing failed, the body is `[]` and the status is 200 all the
    /// same: the failure is not reported.
    pub fn json<H: Host>(host: &H, serialized: Result<Vec<u8>, serde_json::Error>) -> (resp:
        Response<H::Buffer>)
        ensures
            carries(host, resp, 200, json_payload(serialized)),
    {
        match serialized {
            Ok(bytes) => {
                let data = bytes.as_slice();
                let handle = host.create_memory_buffer(data);
                let resp = Response { status: 200, body: Some(handle) };
                proof {
                    lemma_carries(host, resp, data, handle);
                }
                resp
            },
            Err(_) => {
                let fallback: [u8; 2] = [0x5b, 0x5d];
                let data = fallback.as_slice();
                let handle = host.create_memory_buffer(data);
                let resp = Response { status: 200, body: Some(handle) };
                proof {
                    assert(data@ =~= empty_array());
                    lemma_carries(host, resp, data, handle);
                }
                resp
            },
        }
    }

    /// A response that reports `err`: its status is the one that stands for
    /// the error, and its body is a JSON object with the fields `success`
    /// (false), `error` (true), `code` (the status), `type` (the name of the
    /// error's kind) and `message`. Where that object cannot be serialized,
    /// the body is `[]` and the status stays.
    pub fn error<H: Host>(host: &H, err: VtxError) -> (resp: Response<H::Buffer>)
        ensures
            resp.status == err.status(),
            reports(host, resp, err.status(), err.kind(), shown_message(err)),
    {
        let status = err.status_code();
        let message = message_for(&err);
        let serialized = report_bytes(status, err.kind_name(), message);
        let mut resp = Self::json(host, serialized);
        resp.status = status;
        resp
    }

    /// A response for the file that the host knows under `uuid`: status 200
    /// and the file's handle where the host opens it, else a report of a
    /// missing resource with status 404.
    pub fn file<H: Host>(host: &H, uuid: &str) -> (resp: Response<H::Buffer>)
        ensures
            exists|opened: Result<H::Buffer, String>|
                #![trigger call_ensures(H::open_file, (host, uuid), opened)]
                call_ensures(H::open_file, (host, uuid), opened) && match opened {
                    Ok(handle) => resp == (Response { status: 200, body: Some(handle) }),
                    Err(reason) => reports(
                        host,
                        resp,
                        404,
                        "NotFound"@,
                        file_not_found_lead() + reason@,
                    ),
                },
    {
        let opened = host.open_file(uuid);
        let ghost seen = opened;
        let resp = match opened {
            Ok(handle) => Response { status: 200, body: Some(handle) },
            Err(reason) => {
                let message = labelled("File UUID not found: ", reason.as_str());
                Self::error(host, VtxError::NotFound(message))
            },
        };
        assert(call_ensures(H::open_file, (host, uuid), seen));
        resp
    }

    /// A response with the given status and no body.
    pub fn status<B>(code: u16) -> (resp: Response<B>)
        ensures
            resp == (Response::<B> { status: code, body: None }),
    {
        Response { status: code, body: None }
    }

    /// A response with status 404 and no body.
    pub fn not_found<B>() -> (resp: Response<B>)
        ensures
            resp == (Response::<B> { status: 404, body: None }),
    {
        Self::status(404)
    }
}

} // verus!
