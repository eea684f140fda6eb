use ponchik::json::{read_reply, Json};
use ponchik::slack::{
    channel_member_ids, direct_message_users, listed_member_ids, members_acceptable, opened_channel_id,
    opened_reply_acceptable, profile_identity, reply_ok, Method,
};
use serde_json::Value;

fn parse(text: &str) -> Json {
    read_reply(text).unwrap()
}

#[test]
fn endpoints_are_the_service_addresses() {
    assert_eq!(Method::ListMembersOfChannel.endpoint(), "https://slack.com/api/conversations.members");
    assert_eq!(Method::OpenDirectMessage.endpoint(), "https://slack.com/api/conversations.open");
    assert_eq!(Method::PostMessage.endpoint(), "https://slack.com/api/chat.postMessage");
    assert_eq!(Method::UserIdentity.endpoint(), "https://slack.com/api/users.profile.get");
}

#[test]
fn json_get_and_at_follow_serde() {
    let doc = parse(r#"{"a": [1, "x"], "b": null}"#);
    assert!(doc.get("a").is_some());
    assert!(matches!(doc.get("b"), Some(Json::Null)));
    assert!(doc.get("c").is_none());
    let a = doc.get("a").unwrap();
    assert!(matches!(a.at(1), Some(Json::Str(s)) if s == "x"));
    assert!(a.at(2).is_none());
    assert!(Json::Null.get("a").is_none());
    assert!(Json::Bool(true).is_true());
    assert!(!Json::Bool(false).is_true());
    assert!(!Json::Str("true".to_string()).is_true());
}

#[test]
fn reply_ok_needs_true() {
    assert!(reply_ok(&parse(r#"{"ok": true}"#)));
    assert!(!reply_ok(&parse(r#"{"ok": false}"#)));
    assert!(!reply_ok(&parse(r#"{"ok": "true"}"#)));
    assert!(!reply_ok(&parse(r#"{}"#)));
}

#[test]
fn member_list_keeps_order_and_drops_bot() {
    let reply = parse(r#"{"ok": true, "members": ["U1", "UBOT", "U2", "U3"]}"#);
    assert_eq!(listed_member_ids(&reply), vec!["U1", "UBOT", "U2", "U3"]);
    assert_eq!(channel_member_ids(&reply, "UBOT"), vec!["U1", "U2", "U3"]);
    assert_eq!(channel_member_ids(&reply, "UX"), vec!["U1", "UBOT", "U2", "U3"]);
}

#[test]
fn names_are_quoted_as_serde_displays_them() {
    for s in ["Ada", "a\"b", "back\\slash", "line\nbreak", "ünï", ""] {
        let mut profile = serde_json::Map::new();
        profile.insert("real_name".to_string(), Value::String(s.to_string()));
        let mut reply = serde_json::Map::new();
        reply.insert("ok".to_string(), Value::Bool(true));
        reply.insert("profile".to_string(), Value::Object(profile));
        let text = Value::Object(reply).to_string();
        let expected = Value::String(s.to_string()).to_string();
        assert_eq!(profile_identity(&parse(&text)), expected);
    }
}

#[test]
fn opened_channel_reads_the_id() {
    let reply = parse(r#"{"ok": true, "channel": {"id": "D0123"}}"#);
    assert_eq!(opened_channel_id(&reply), Some("D0123".to_string()));
    let escaped = parse(r#"{"ok": true, "channel": {"id": "D\"1"}}"#);
    assert_eq!(opened_channel_id(&escaped), Some("D\\\"1".to_string()));
    let failed = parse(r#"{"ok": false, "error": "not_allowed"}"#);
    assert_eq!(opened_channel_id(&failed), None);
    let not_object = parse(r#"{"ok": true, "channel": "D0123"}"#);
    assert_eq!(opened_channel_id(&not_object), None);
}

#[test]
fn identity_reads_the_real_name() {
    let named = parse(r#"{"ok": true, "profile": {"real_name": "Ada Lovelace"}}"#);
    assert_eq!(profile_identity(&named), "\"Ada Lovelace\"");
    let failed = parse(r#"{"ok": false, "profile": {"real_name": "Ada"}}"#);
    assert_eq!(profile_identity(&failed), "");
    let missing = parse(r#"{"ok": true, "profile": {}}"#);
    assert_eq!(profile_identity(&missing), "null");
    let number = parse(r#"{"ok": true, "profile": {"real_name": 7}}"#);
    assert_eq!(profile_identity(&number), "7");
    let null = parse(r#"{"ok": true, "profile": {"real_name": null}}"#);
    assert_eq!(profile_identity(&null), "null");
    let flag = parse(r#"{"ok": true, "profile": {"real_name": false}}"#);
    assert_eq!(profile_identity(&flag), "false");
    let nested = parse(r#"{"ok": true, "profile": {"real_name": {"b": [1, true], "a": null}}}"#);
    assert_eq!(profile_identity(&nested), r#"{"a":null,"b":[1,true]}"#);
}

#[test]
fn replies_read_and_write_back() {
    assert!(read_reply("not json").is_none());
    let reply = parse(r#"{ "ok" : true , "n": [1.5, -2] }"#);
    assert_eq!(reply.to_text(), r#"{"n":[1.5,-2],"ok":true}"#);
}

#[test]
fn direct_message_users_are_comma_joined() {
    let users: Vec<String> = vec!["U1".to_string(), "U2".to_string()];
    assert_eq!(direct_message_users(&users), "U1,U2");
}

#[test]
fn endpoints_parse_as_urls() {
    let url = Method::PostMessage.url().unwrap();
    assert_eq!(url.as_str(), "https://slack.com/api/chat.postMessage");
    assert_eq!(Method::UserIdentity.url().unwrap().host_str(), Some("slack.com"));
}

#[test]
fn reply_shapes_are_checked() {
    assert!(members_acceptable(&parse(r#"{"members": ["U1", "U2"]}"#)));
    assert!(members_acceptable(&parse(r#"{"members": []}"#)));
    assert!(!members_acceptable(&parse(r#"{"members": ["U1", 2]}"#)));
    assert!(!members_acceptable(&parse(r#"{"ok": false}"#)));
    assert!(opened_reply_acceptable(&parse(r#"{"channel": {"id": "D1"}}"#)));
    assert!(opened_reply_acceptable(&parse(r#"{"ok": false}"#)));
    assert!(!opened_reply_acceptable(&parse(r#"{"channel": {"id": 5}}"#)));
    assert!(!opened_reply_acceptable(&parse(r#"{"channel": {}}"#)));
}
