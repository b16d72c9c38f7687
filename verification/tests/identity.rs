use std::collections::HashMap;
use vtx_sdk::auth::{in_groups, IntoAuthResult, UserBuilder, UserContext};
use vtx_sdk::context::{CurrentUser, CurrentUserExt};
use vtx_sdk::error::{VtxError, VtxResult};

fn unserializable() -> Result<serde_json::Value, serde_json::Error> {
    let mut map: HashMap<(u8, u8), u8> = HashMap::new();
    map.insert((1, 2), 3);
    serde_json::to_value(map)
}

#[test]
fn builder_carries_id_name_and_groups_in_order() {
    let ctx = UserBuilder::new("u1", "ann").group("admin").group("dev").group("admin").build();
    assert_eq!(ctx.user_id, "u1");
    assert_eq!(ctx.username, "ann");
    assert_eq!(ctx.groups, vec!["admin", "dev", "admin"]);
    assert_eq!(ctx.metadata, "{}");
}

#[test]
fn metadata_is_a_json_object_with_sorted_keys() {
    let ctx = UserBuilder::new("u1", "ann")
        .meta("team", serde_json::to_value("core"))
        .meta("age", serde_json::to_value(30))
        .meta("tags", serde_json::to_value(vec!["a", "b"]))
        .build();
    assert_eq!(ctx.metadata, "{\"age\":30,\"tags\":[\"a\",\"b\"],\"team\":\"core\"}");
}

#[test]
fn later_value_replaces_an_earlier_one_under_the_same_key() {
    let ctx = UserBuilder::new("u", "n")
        .meta("k", serde_json::to_value(1))
        .meta("k", serde_json::to_value(true))
        .build();
    assert_eq!(ctx.metadata, "{\"k\":true}");
}

#[test]
fn unserializable_metadata_is_left_out() {
    assert!(unserializable().is_err());
    let ctx = UserBuilder::new("u1", "ann")
        .meta("a", serde_json::to_value(1))
        .meta("k", unserializable())
        .group("g")
        .build();
    assert_eq!(ctx.metadata, "{\"a\":1}");
    assert_eq!(ctx.groups, vec!["g"]);
    let parsed: serde_json::Value = serde_json::from_str(&ctx.metadata).unwrap();
    assert!(parsed.get("k").is_none());
}

#[test]
fn unserializable_metadata_does_not_remove_an_earlier_value() {
    let ctx = UserBuilder::new("u", "n")
        .meta("k", serde_json::to_value("kept"))
        .meta("k", unserializable())
        .build();
    assert_eq!(ctx.metadata, "{\"k\":\"kept\"}");
}

#[test]
fn build_with_falls_back_to_the_empty_object() {
    let failed: Result<String, serde_json::Error> = serde_json::to_string(&{
        let mut map: HashMap<(u8, u8), u8> = HashMap::new();
        map.insert((0, 0), 0);
        map
    });
    assert!(failed.is_err());
    let ctx = UserBuilder::new("u", "n").meta("a", serde_json::to_value(1)).build_with(failed);
    assert_eq!(ctx.metadata, "{}");
    assert_eq!(ctx.user_id, "u");
    let ctx = UserBuilder::new("u", "n").build_with(Ok("{\"x\":1}".to_string()));
    assert_eq!(ctx.metadata, "{\"x\":1}");
}

#[test]
fn auth_result_keeps_the_identity() {
    let ctx = UserBuilder::new("u1", "ann").group("g").build();
    let ok: VtxResult<UserContext> = Ok(ctx);
    let lowered = ok.into_auth_result().ok().unwrap();
    assert_eq!(lowered.user_id, "u1");
    assert_eq!(lowered.groups, vec!["g"]);
}

#[test]
fn auth_result_lowers_errors_to_their_status() {
    let cases: Vec<(VtxError, u16)> = vec![
        (VtxError::AuthDenied(401), 401),
        (VtxError::AuthDenied(403), 403),
        (VtxError::PermissionDenied("x".to_string()), 403),
        (VtxError::NotFound("x".to_string()), 404),
        (VtxError::SerializationError("x".to_string()), 400),
        (VtxError::DatabaseError("x".to_string()), 500),
        (VtxError::Internal("x".to_string()), 500),
    ];
    for (err, status) in cases {
        let r: VtxResult<UserContext> = Err(err);
        assert_eq!(r.into_auth_result().err(), Some(status));
    }
}

#[test]
fn group_membership_is_exact() {
    let user = CurrentUser {
        user_id: "u".to_string(),
        username: "n".to_string(),
        groups: vec!["admin".to_string(), "dev".to_string()],
    };
    assert!(user.is_in_group("admin"));
    assert!(user.is_in_group("dev"));
    assert!(!user.is_in_group("Admin"));
    assert!(!user.is_in_group("adm"));
    assert!(!user.is_in_group(""));
    assert!(!in_groups(&Vec::new(), "admin"));
    assert!(in_groups(&vec!["".to_string()], ""));
}
