use a2::notification::{NotificationBuilder, WebNotificationBuilder};
use a2::options::NotificationOptions;
use a2::payload::WebPushAlert;
use serde_json::Value;

fn object(members: Vec<(&str, Value)>) -> Value {
    let mut map = serde_json::Map::new();
    for (k, v) in members {
        map.insert(k.to_string(), v);
    }
    Value::Object(map)
}

fn string(s: &str) -> Value {
    Value::String(s.to_string())
}

fn hello_alert() -> WebPushAlert {
    WebPushAlert {
        action: "View".into(),
        title: "Hello".into(),
        body: "world".into(),
    }
}

#[test]
fn test_webpush_notification() {
    let payload = WebNotificationBuilder::new(
        WebPushAlert {
            action: "View".into(),
            title: "Hello".into(),
            body: "world".into(),
        },
        &["arg1"],
    )
    .build("device-token", Default::default())
    .to_json_string();

    let expected_payload = object(vec![(
        "aps",
        object(vec![
            (
                "alert",
                object(vec![
                    ("title", string("Hello")),
                    ("body", string("world")),
                    ("action", string("View")),
                ]),
            ),
            ("url-args", Value::Array(vec![string("arg1")])),
        ]),
    )]);

    assert_eq!(expected_payload, serde_json::from_str::<Value>(&payload).unwrap());
}

#[test]
fn webpush_exact_text() {
    let payload = WebNotificationBuilder::new(hello_alert(), &["arg1"])
        .build("device-token", NotificationOptions::default())
        .to_json_string();
    assert_eq!(
        payload,
        "{\"aps\":{\"alert\":{\"title\":\"Hello\",\"body\":\"world\",\"action\":\"View\"},\"url-args\":[\"arg1\"]}}"
    );
}

#[test]
fn webpush_with_sound_exact_text() {
    let mut builder = WebNotificationBuilder::new(hello_alert(), &["arg1"]);
    builder.set_sound("meow");
    let payload = builder.build("device-token", NotificationOptions::default()).to_json_string();
    assert_eq!(
        payload,
        "{\"aps\":{\"alert\":{\"title\":\"Hello\",\"body\":\"world\",\"action\":\"View\"},\"sound\":\"meow\",\"url-args\":[\"arg1\"]}}"
    );
}

#[test]
fn webpush_sound_set_twice_keeps_last() {
    let mut builder = WebNotificationBuilder::new(hello_alert(), &["arg1"]);
    builder.set_sound("a").set_sound("b");
    let payload = builder.build("t", NotificationOptions::default()).to_json_string();
    assert_eq!(
        payload,
        "{\"aps\":{\"alert\":{\"title\":\"Hello\",\"body\":\"world\",\"action\":\"View\"},\"sound\":\"b\",\"url-args\":[\"arg1\"]}}"
    );
}

#[test]
fn webpush_empty_url_args_still_present() {
    let empty: [&str; 0] = [];
    let payload = WebNotificationBuilder::new(hello_alert(), &empty)
        .build("t", NotificationOptions::default())
        .to_json_string();
    let value: Value = serde_json::from_str(&payload).unwrap();
    let aps = value["aps"].as_object().unwrap();
    assert_eq!(aps["url-args"], Value::Array(vec![]));
    for key in ["badge", "content-available", "category", "mutable-content", "sound"] {
        assert!(!aps.contains_key(key), "unexpected key {}", key);
    }
}

#[test]
fn webpush_many_url_args_in_order() {
    let payload = WebNotificationBuilder::new(hello_alert(), &["a", "b", "c"])
        .build("t", NotificationOptions::default())
        .to_json_string();
    assert!(payload.ends_with(",\"url-args\":[\"a\",\"b\",\"c\"]}}"));
}

#[test]
fn webpush_build_carries_token_and_options() {
    let mut options = NotificationOptions::default();
    options.apns_topic = Some("com.example.app".to_string());
    options.apns_expiration = Some(7);
    let payload = WebNotificationBuilder::new(hello_alert(), &["x"]).build("device-token", options);
    assert_eq!(payload.device_token, "device-token");
    assert_eq!(payload.options.apns_topic.as_deref(), Some("com.example.app"));
    assert_eq!(payload.options.apns_expiration, Some(7));
    assert!(payload.aps.badge.is_none());
    assert!(!payload.aps.content_available);
    assert!(!payload.aps.mutable_content);
    assert!(payload.aps.category.is_none());
    assert_eq!(payload.aps.url_args, Some(vec!["x".to_string()]));
}

#[test]
fn webpush_round_trip_is_structurally_equal() {
    let mut builder = WebNotificationBuilder::new(hello_alert(), &["arg1", "arg2"]);
    builder.set_sound("meow");
    let text = builder.build("t", NotificationOptions::default()).to_json_string();
    let first: Value = serde_json::from_str(&text).unwrap();
    let again = serde_json::to_string(&first).unwrap();
    let second: Value = serde_json::from_str(&again).unwrap();
    assert_eq!(first, second);
}

#[test]
fn webpush_escapes_special_characters() {
    let alert = WebPushAlert {
        title: "say \"hi\"\\".into(),
        body: "line\nbreak\ttab\r\u{8}\u{c}\u{1}\u{1f}".into(),
        action: "caf\u{e9} \u{1f600}".into(),
    };
    let text = WebNotificationBuilder::new(alert, &["a/b"])
        .build("t", NotificationOptions::default())
        .to_json_string();
    assert!(text.contains("\"title\":\"say \\\"hi\\\"\\\\\""));
    assert!(text.contains("\\u0001"));
    assert!(text.contains("\\u001f"));
    let value: Value = serde_json::from_str(&text).unwrap();
    assert_eq!(value["aps"]["alert"]["title"], string("say \"hi\"\\"));
    assert_eq!(
        value["aps"]["alert"]["body"],
        string("line\nbreak\ttab\r\u{8}\u{c}\u{1}\u{1f}")
    );
    assert_eq!(value["aps"]["alert"]["action"], string("caf\u{e9} \u{1f600}"));
}
