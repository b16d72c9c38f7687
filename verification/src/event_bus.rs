//! Publishing events through the host.

use crate::error::{host_error, VtxError, VtxResult};
use crate::host::Host;
use crate::json::decode;
use crate::text::{mentions, mentions_phrase};
use vstd::prelude::*;

verus! {

/// The error that a failure message of the event bus stands for: a
/// serialization error where the host found the payload invalid, else what
/// `host_error` makes of the message.
pub open spec fn publish_error(message: String) -> VtxError {
    if mentions(message@, "invalid event payload"@) {
        VtxError::SerializationError(message)
    } else {
        host_error(message)
    }
}

/// Classifies a failure message of the event bus.
pub fn classify(message: String) -> (err: VtxError)
    ensures
        err == publish_error(message),
{
    if mentions_phrase(message.as_str(), "invalid event payload") {
        VtxError::SerializationError(message)
    } else {
        VtxError::from_host_message(message)
    }
}

/// `r` is what comes of publishing `payload` under `topic`: success where the
/// host accepted the event, else the error that its message stands for.
pub open spec fn published<H: Host>(host: &H, topic: &str, payload: &str, r: VtxResult<()>) -> bool {
    exists|reply: Result<(), String>|
        #![trigger call_ensures(H::publish_event, (host, topic, payload), reply)]
        call_ensures(H::publish_event, (host, topic, payload), reply) && match reply {
            Ok(_) => r is Ok,
            Err(message) => r == Err::<(), VtxError>(publish_error(message)),
        }
}

/// Publishes an event whose payload is already JSON text.
pub fn publish_raw<H: Host>(host: &H, topic: &str, payload_json: &str) -> (r: VtxResult<()>)
    ensures
        published(host, topic, payload_json, r),
{
    let reply = host.publish_event(topic, payload_json);
    let ghost seen = reply;
    let r = match reply {
        Ok(_) => Ok(()),
        Err(message) => Err(classify(message)),
    };
    assert(call_ensures(H::publish_event, (host, topic, payload_json), seen));
    r
}

/// Publishes an event whose payload was serialized beforehand. Where
/// serializing failed, nothing is published and the failure is returned as a
/// serialization error.
pub fn publish_json<H: Host>(
    host: &H,
    topic: &str,
    serialized: Result<String, serde_json::Error>,
) -> (r: VtxResult<()>)
    ensures
        match serialized {
            Ok(payload) => exists|text: &str|
                text@ == payload@ && #[trigger] published(host, topic, text, r),
            Err(_) => r matches Err(e) && e is SerializationError,
        },
{
    match decode(serialized) {
        Ok(payload) => {
            let text = payload.as_str();
            let r = publish_raw(host, topic, text);
            assert(text@ == payload@ && published(host, topic, text, r));
            r
        },
        Err(e) => Err(e),
    }
}

} // verus!
