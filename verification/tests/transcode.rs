use std::cell::RefCell;
use vtx_sdk::context::{current_user, CurrentUser};
use vtx_sdk::db::DbValue;
use vtx_sdk::error::VtxError;
use vtx_sdk::ffmpeg::{FfmpegTask, TranscodeProfile};
use vtx_sdk::host::{Buffer, Host};
use vtx_sdk::http_client::{HttpClientRequest, HttpClientResponse};

struct Pipe(u32);

impl Buffer for Pipe {
    fn size(&self) -> u64 {
        0
    }

    fn read(&self, _offset: u64, _max_len: u64) -> Vec<u8> {
        Vec::new()
    }

    fn write(&self, _data: &[u8]) -> u64 {
        0
    }
}

/// A host whose transcoder keeps what it was asked for.
struct Studio {
    refuse: Option<String>,
    seen: RefCell<Vec<String>>,
}

impl Studio {
    fn new(refuse: Option<&str>) -> Self {
        Studio { refuse: refuse.map(|s| s.to_string()), seen: RefCell::new(Vec::new()) }
    }
}

fn show(params: &TranscodeProfile) -> String {
    let options: Vec<String> = params
        .options
        .iter()
        .map(|o| match &o.value {
            Some(v) => format!("-{}={}", o.key, v),
            None => format!("-{}", o.key),
        })
        .collect();
    format!("{} {} {}", params.profile, params.input_id, options.join(" "))
}

impl Host for Studio {
    type Buffer = Pipe;

    fn execute(&self, _statement: &str, _params: &[DbValue]) -> Result<u64, String> {
        Ok(0)
    }

    fn query_json(&self, _statement: &str, _params: &[DbValue]) -> Result<String, String> {
        Ok("[]".to_string())
    }

    fn open_file(&self, _uuid: &str) -> Result<Pipe, String> {
        Err("no files".to_string())
    }

    fn create_memory_buffer(&self, _data: &[u8]) -> Pipe {
        Pipe(0)
    }

    fn http_request(&self, _req: HttpClientRequest<Pipe>) -> Result<HttpClientResponse<Pipe>, String> {
        Err("no network".to_string())
    }

    fn transcode(&self, params: &TranscodeProfile) -> Result<Pipe, String> {
        self.seen.borrow_mut().push(show(params));
        match &self.refuse {
            Some(reason) => Err(reason.clone()),
            None => Ok(Pipe(7)),
        }
    }

    fn publish_event(&self, _topic: &str, _payload: &str) -> Result<(), String> {
        Ok(())
    }

    fn get_current_user(&self) -> Option<CurrentUser> {
        Some(CurrentUser {
            user_id: "u9".to_string(),
            username: "zoe".to_string(),
            groups: vec!["staff".to_string()],
        })
    }
}

#[test]
fn options_reach_the_host_in_order() {
    let host = Studio::new(None);
    let pipe = FfmpegTask::new("mini", "vid-1")
        .option("ss", "10")
        .flag("an")
        .options(vec![("t".to_string(), "30".to_string()), ("b".to_string(), "1M".to_string())])
        .format("mp4")
        .execute_buffer(&host)
        .ok()
        .unwrap();
    assert_eq!(pipe.0, 7);
    assert_eq!(*host.seen.borrow(), vec!["mini vid-1 -ss=10 -an -t=30 -b=1M -f=mp4".to_string()]);
}

#[test]
fn seek_adds_start_and_duration() {
    let host = Studio::new(None);
    assert!(FfmpegTask::new("p", "i").seek("5", Some("9")).execute_buffer(&host).is_ok());
    assert!(FfmpegTask::new("p", "i").seek("5", None).execute_buffer(&host).is_ok());
    assert_eq!(*host.seen.borrow(), vec!["p i -ss=5 -t=9".to_string(), "p i -ss=5".to_string()]);
}

#[test]
fn pipe_task_reads_standard_input() {
    let host = Studio::new(None);
    assert!(FfmpegTask::new_pipe("remux").execute_buffer(&host).is_ok());
    assert_eq!(*host.seen.borrow(), vec!["remux pipe:0 ".to_string()]);
}

#[test]
fn execute_wraps_the_pipe_in_a_response() {
    let host = Studio::new(None);
    let resp = FfmpegTask::new("mini", "v").execute(&host).ok().unwrap();
    assert_eq!(resp.status, 200);
    assert_eq!(resp.body.unwrap().0, 7);
}

#[test]
fn refusals_are_classified() {
    let host = Studio::new(Some("Permission Denied for profile"));
    assert!(matches!(
        FfmpegTask::new("x", "v").execute(&host),
        Err(VtxError::PermissionDenied(m)) if m == "Permission Denied for profile"
    ));
    let host = Studio::new(Some("Profile not found"));
    assert!(matches!(
        FfmpegTask::new("x", "v").execute_buffer(&host),
        Err(VtxError::Internal(m)) if m == "Profile not found"
    ));
}

#[test]
fn current_user_comes_from_the_host() {
    let host = Studio::new(None);
    let user = current_user(&host).unwrap();
    assert_eq!(user.user_id, "u9");
    assert_eq!(user.username, "zoe");
    assert_eq!(user.groups, vec!["staff"]);
}
