use std::cell::RefCell;
use vtx_sdk::context::CurrentUser;
use vtx_sdk::db::{bind, classify, execute, query, DbValue, RealBits, ToDbValue};
use vtx_sdk::error::VtxError;
use vtx_sdk::ffmpeg::TranscodeProfile;
use vtx_sdk::host::{Buffer, Host};
use vtx_sdk::http_client::{HttpClientRequest, HttpClientResponse};

struct NoBuffer;

impl Buffer for NoBuffer {
    fn size(&self) -> u64 {
        0
    }

    fn read(&self, _offset: u64, _max_len: u64) -> Vec<u8> {
        Vec::new()
    }

    fn write(&self, _data: &[u8]) -> u64 {
        0
    }
}

/// A host with a database that answers every statement the same way and keeps
/// what it was handed.
struct Db {
    rows: Result<u64, String>,
    json: Result<String, String>,
    seen: RefCell<Vec<(String, Vec<String>)>>,
}

fn show(v: &DbValue) -> String {
    match v {
        DbValue::Text(s) => format!("text:{}", s),
        DbValue::Integer(n) => format!("int:{}", n),
        DbValue::Real(bits) => format!("real:{}", f64::from_bits(bits.0)),
        DbValue::NullVal => "null".to_string(),
    }
}

impl Db {
    fn new(rows: Result<u64, &str>, json: Result<&str, &str>) -> Self {
        Db {
            rows: rows.map_err(|e| e.to_string()),
            json: json.map(|s| s.to_string()).map_err(|e| e.to_string()),
            seen: RefCell::new(Vec::new()),
        }
    }

    fn note(&self, statement: &str, params: &[DbValue]) {
        self.seen.borrow_mut().push((statement.to_string(), params.iter().map(show).collect()));
    }
}

impl Host for Db {
    type Buffer = NoBuffer;

    fn execute(&self, statement: &str, params: &[DbValue]) -> Result<u64, String> {
        self.note(statement, params);
        self.rows.clone()
    }

    fn query_json(&self, statement: &str, params: &[DbValue]) -> Result<String, String> {
        self.note(statement, params);
        self.json.clone()
    }

    fn open_file(&self, _uuid: &str) -> Result<NoBuffer, String> {
        Err("no files".to_string())
    }

    fn create_memory_buffer(&self, _data: &[u8]) -> NoBuffer {
        NoBuffer
    }

    fn http_request(&self, _req: HttpClientRequest<NoBuffer>) -> Result<HttpClientResponse<NoBuffer>, String> {
        Err("no network".to_string())
    }

    fn transcode(&self, _params: &TranscodeProfile) -> Result<NoBuffer, String> {
        Err("no transcoder".to_string())
    }

    fn publish_event(&self, _topic: &str, _payload: &str) -> Result<(), String> {
        Ok(())
    }

    fn get_current_user(&self) -> Option<CurrentUser> {
        None
    }
}

#[test]
fn marshalling_examples() {
    assert!(matches!(7i32.to_db_value(), DbValue::Integer(7)));
    assert!(matches!(None::<String>.to_db_value(), DbValue::NullVal));
    assert!(matches!(true.to_db_value(), DbValue::Integer(1)));
    assert!(matches!(false.to_db_value(), DbValue::Integer(0)));
}

#[test]
fn integers_widen_without_loss() {
    assert!(matches!(i32::MIN.to_db_value(), DbValue::Integer(-2147483648)));
    assert!(matches!(i32::MAX.to_db_value(), DbValue::Integer(2147483647)));
    assert!(matches!(u32::MAX.to_db_value(), DbValue::Integer(4294967295)));
    assert!(matches!(i64::MIN.to_db_value(), DbValue::Integer(i64::MIN)));
    assert!(matches!(0u64.to_db_value(), DbValue::Integer(0)));
    assert!(matches!((i64::MAX as u64).to_db_value(), DbValue::Integer(i64::MAX)));
}

#[test]
fn u64_above_the_signed_range_keeps_its_bits() {
    assert!(matches!((1u64 << 63).to_db_value(), DbValue::Integer(i64::MIN)));
    assert!(matches!(u64::MAX.to_db_value(), DbValue::Integer(-1)));
    assert!(matches!((u64::MAX - 41).to_db_value(), DbValue::Integer(-42)));
}

#[test]
fn text_unit_option_and_real() {
    assert!(matches!("abc".to_db_value(), DbValue::Text(s) if s == "abc"));
    assert!(matches!("abc".to_string().to_db_value(), DbValue::Text(s) if s == "abc"));
    assert!(matches!(().to_db_value(), DbValue::NullVal));
    assert!(matches!(Some(5i64).to_db_value(), DbValue::Integer(5)));
    assert!(matches!(Some(Some("x")).to_db_value(), DbValue::Text(s) if s == "x"));
    assert!(matches!(Some(None::<bool>).to_db_value(), DbValue::NullVal));
    let bits = 1.5f64.to_bits();
    assert!(matches!(RealBits(bits).to_db_value(), DbValue::Real(RealBits(b)) if b == bits));
}

#[test]
fn bind_keeps_order_and_count() {
    let name = "ann".to_string();
    let bound = bind(&[&1i64, &name, &false, &(), &Some(9u32)]);
    let shown: Vec<String> = bound.iter().map(show).collect();
    assert_eq!(shown, vec!["int:1", "text:ann", "int:0", "null", "int:9"]);
    assert!(bind(&[]).is_empty());
}

#[test]
fn database_messages_are_classified() {
    assert!(matches!(
        classify("Permission denied (restricted)".to_string()),
        VtxError::PermissionDenied(m) if m == "Permission denied (restricted)"
    ));
    assert!(matches!(
        classify("UNIQUE constraint failed".to_string()),
        VtxError::DatabaseError(m) if m == "UNIQUE constraint failed"
    ));
}

#[test]
fn execute_hands_statement_and_parameters_to_the_host() {
    let host = Db::new(Ok(3), Ok("[]"));
    let r = execute(&host, "UPDATE t SET a = ? WHERE b = ?", &[&7i32, &"k"]);
    assert!(matches!(r, Ok(3)));
    assert_eq!(
        *host.seen.borrow(),
        vec![(
            "UPDATE t SET a = ? WHERE b = ?".to_string(),
            vec!["int:7".to_string(), "text:k".to_string()]
        )]
    );
}

#[test]
fn execute_classifies_failures() {
    let host = Db::new(Err("PERMISSION DENIED"), Ok("[]"));
    assert!(matches!(execute(&host, "x", &[]), Err(VtxError::PermissionDenied(_))));
    let host = Db::new(Err("disk full"), Ok("[]"));
    assert!(matches!(execute(&host, "x", &[]), Err(VtxError::DatabaseError(m)) if m == "disk full"));
}

#[test]
fn query_parses_the_rows() {
    let host = Db::new(Ok(0), Ok("[1,2,3]"));
    let rows = query(&host, "SELECT n FROM t WHERE n > ?", &[&0i64], |s| {
        serde_json::from_str::<Vec<u8>>(s)
    });
    assert_eq!(rows.unwrap(), vec![1, 2, 3]);
    assert_eq!(host.seen.borrow()[0].1, vec!["int:0".to_string()]);
}

#[test]
fn query_failures() {
    let host = Db::new(Ok(0), Err("permission denied"));
    let r = query(&host, "q", &[], |s| serde_json::from_str::<Vec<u8>>(s));
    assert!(matches!(r, Err(VtxError::PermissionDenied(_))));
    let host = Db::new(Ok(0), Err("no such table"));
    let r = query(&host, "q", &[], |s| serde_json::from_str::<Vec<u8>>(s));
    assert!(matches!(r, Err(VtxError::DatabaseError(_))));
    let host = Db::new(Ok(0), Ok("{\"not\":\"rows\"}"));
    let r = query(&host, "q", &[], |s| serde_json::from_str::<Vec<u8>>(s));
    assert!(matches!(r, Err(VtxError::SerializationError(_))));
}
