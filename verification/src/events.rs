//! Events that the host delivers to a plugin.

use crate::error::VtxResult;
use crate::json::{parse_with, parsed_from};
use vstd::prelude::*;

verus! {

/// Who caused an event, as far as the host knows.
pub struct EventContext {
    pub user_id: Option<String>,
    pub username: Option<String>,
    pub request_id: Option<String>,
}

/// An event. Its payload is JSON text.
pub struct VtxEvent {
    pub id: String,
    pub topic: String,
    pub source: String,
    pub payload: String,
    pub context: EventContext,
    pub occurred_at: u64,
}

/// An event as a plugin's handler receives it.
pub type PluginEvent = VtxEvent;

/// The context of an event as a plugin's handler receives it.
pub type PluginEventContext = EventContext;

/// Reading an event's payload.
pub trait VtxEventExt {
    /// The JSON text that the event carries.
    spec fn payload_text(&self) -> Seq<char>;

    /// Hands the payload to `parse`. A payload that the parser refuses gives
    /// a serialization error.
    fn payload_json<T, P: FnOnce(&str) -> Result<T, serde_json::Error>>(&self, parse: P) -> (r:
        VtxResult<T>)
        requires
            forall|text: &str| text@ == self.payload_text() ==> call_requires(parse, (text,)),
        ensures
            exists|text: &str| text@ == self.payload_text() && #[trigger] parsed_from(parse, text, r),
    ;
}

impl VtxEventExt for VtxEvent {
    open spec fn payload_text(&self) -> Seq<char> {
        self.payload@
    }

    fn payload_json<T, P: FnOnce(&str) -> Result<T, serde_json::Error>>(&self, parse: P) -> (r:
        VtxResult<T>) {
        let text = self.payload.as_str();
        let r = parse_with(text, parse);
        assert(text@ == self.payload_text() && parsed_from(parse, text, r));
        r
    }
}

} // verus!
