use std::cell::RefCell;
use std::collections::HashMap;
use vtx_sdk::context::CurrentUser;
use vtx_sdk::db::DbValue;
use vtx_sdk::error::VtxError;
use vtx_sdk::event_bus::{classify, publish_json, publish_raw};
use vtx_sdk::events::{EventContext, VtxEvent, VtxEventExt};
use vtx_sdk::ffmpeg::TranscodeProfile;
use vtx_sdk::host::{Buffer, Host};
use vtx_sdk::http_client::{HttpClientRequest, HttpClientResponse};

struct Nothing;

impl Buffer for Nothing {
    fn size(&self) -> u64 {
        0
    }

    fn read(&self, _offset: u64, _max_len: u64) -> Vec<u8> {
        Vec::new()
    }

    fn write(&self, _data: &[u8]) -> u64 {
        0
    }
}

/// A host whose event bus keeps what was published.
struct Bus {
    refuse: Option<String>,
    sent: RefCell<Vec<(String, String)>>,
}

impl Bus {
    fn new(refuse: Option<&str>) -> Self {
        Bus { refuse: refuse.map(|s| s.to_string()), sent: RefCell::new(Vec::new()) }
    }
}

impl Host for Bus {
    type Buffer = Nothing;

    fn execute(&self, _statement: &str, _params: &[DbValue]) -> Result<u64, String> {
        Ok(0)
    }

    fn query_json(&self, _statement: &str, _params: &[DbValue]) -> Result<String, String> {
        Ok("[]".to_string())
    }

    fn open_file(&self, _uuid: &str) -> Result<Nothing, String> {
        Err("no files".to_string())
    }

    fn create_memory_buffer(&self, _data: &[u8]) -> Nothing {
        Nothing
    }

    fn http_request(&self, _req: HttpClientRequest<Nothing>) -> Result<HttpClientResponse<Nothing>, String> {
        Err("no network".to_string())
    }

    fn transcode(&self, _params: &TranscodeProfile) -> Result<Nothing, String> {
        Err("no transcoder".to_string())
    }

    fn publish_event(&self, topic: &str, payload: &str) -> Result<(), String> {
        self.sent.borrow_mut().push((topic.to_string(), payload.to_string()));
        match &self.refuse {
            Some(reason) => Err(reason.clone()),
            None => Ok(()),
        }
    }

    fn get_current_user(&self) -> Option<CurrentUser> {
        None
    }
}

fn event(payload: &str) -> VtxEvent {
    VtxEvent {
        id: "e1".to_string(),
        topic: "video.added".to_string(),
        source: "core".to_string(),
        payload: payload.to_string(),
        context: EventContext { user_id: None, username: None, request_id: Some("r1".to_string()) },
        occurred_at: 1700000000,
    }
}

#[test]
fn publish_raw_hands_topic_and_payload_to_the_host() {
    let host = Bus::new(None);
    assert!(publish_raw(&host, "video.added", "{\"id\":1}").is_ok());
    assert_eq!(*host.sent.borrow(), vec![("video.added".to_string(), "{\"id\":1}".to_string())]);
}

#[test]
fn publish_failures_are_classified() {
    let host = Bus::new(Some("Invalid event payload: expected value"));
    assert!(matches!(
        publish_raw(&host, "t", "x"),
        Err(VtxError::SerializationError(m)) if m == "Invalid event payload: expected value"
    ));
    let host = Bus::new(Some("permission denied for topic"));
    assert!(matches!(publish_raw(&host, "t", "{}"), Err(VtxError::PermissionDenied(_))));
    let host = Bus::new(Some("bus is down"));
    assert!(matches!(publish_raw(&host, "t", "{}"), Err(VtxError::Internal(m)) if m == "bus is down"));
}

#[test]
fn invalid_payload_wins_over_permission_denied() {
    assert!(matches!(
        classify("permission denied: invalid event payload".to_string()),
        VtxError::SerializationError(_)
    ));
}

#[test]
fn publish_json_publishes_the_serialized_payload() {
    let host = Bus::new(None);
    assert!(publish_json(&host, "t", serde_json::to_string(&vec![1, 2])).is_ok());
    assert_eq!(*host.sent.borrow(), vec![("t".to_string(), "[1,2]".to_string())]);
}

#[test]
fn publish_json_publishes_nothing_that_failed_to_serialize() {
    let host = Bus::new(None);
    let mut bad: HashMap<(u8, u8), u8> = HashMap::new();
    bad.insert((1, 1), 1);
    let r = publish_json(&host, "t", serde_json::to_string(&bad));
    assert!(matches!(r, Err(VtxError::SerializationError(_))));
    assert!(host.sent.borrow().is_empty());
}

#[test]
fn payload_json_parses_the_payload() {
    let parsed: Vec<String> =
        event("[\"a\",\"b\"]").payload_json(|s| serde_json::from_str::<Vec<String>>(s)).unwrap();
    assert_eq!(parsed, vec!["a", "b"]);
}

#[test]
fn payload_json_reports_a_refused_payload() {
    let r = event("not json").payload_json(|s| serde_json::from_str::<Vec<String>>(s));
    assert!(matches!(r, Err(VtxError::SerializationError(_))));
}
