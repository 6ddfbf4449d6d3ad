use a2::notification::{DefaultNotificationBuilder, NotificationBuilder};
use a2::options::NotificationOptions;
use a2::payload::{APSAlert, APSSound, DefaultAlert};
use serde_json::Value;

fn empty_default_alert() -> DefaultAlert {
    DefaultAlert {
        title: None,
        subtitle: None,
        body: None,
        title_loc_key: None,
        title_loc_args: None,
        action_loc_key: None,
        loc_key: None,
        loc_args: None,
        launch_image: None,
    }
}

#[test]
fn default_plain_alert_exact_text() {
    let payload = DefaultNotificationBuilder::new(APSAlert::Plain("Hi".into()))
        .build("t", NotificationOptions::default())
        .to_json_string();
    assert_eq!(payload, "{\"aps\":{\"alert\":\"Hi\"}}");
}

#[test]
fn default_structured_alert_without_options() {
    let mut alert = empty_default_alert();
    alert.title = Some("T".into());
    let payload = DefaultNotificationBuilder::new(APSAlert::Default(alert))
        .build("t", NotificationOptions::default())
        .to_json_string();
    assert_eq!(payload, "{\"aps\":{\"alert\":{\"title\":\"T\"}}}");
}

#[test]
fn default_empty_structured_alert_is_empty_object() {
    let payload = DefaultNotificationBuilder::new(APSAlert::Default(empty_default_alert()))
        .build("t", NotificationOptions::default())
        .to_json_string();
    assert_eq!(payload, "{\"aps\":{\"alert\":{}}}");
}

#[test]
fn default_structured_alert_all_parts_kebab_case() {
    let alert = DefaultAlert {
        title: Some("a".into()),
        subtitle: Some("b".into()),
        body: Some("c".into()),
        title_loc_key: Some("d".into()),
        title_loc_args: Some(vec!["e".into(), "f".into()]),
        action_loc_key: Some("g".into()),
        loc_key: Some("h".into()),
        loc_args: Some(vec![]),
        launch_image: Some("i".into()),
    };
    let payload = DefaultNotificationBuilder::new(APSAlert::Default(alert))
        .build("t", NotificationOptions::default())
        .to_json_string();
    assert_eq!(
        payload,
        "{\"aps\":{\"alert\":{\"title\":\"a\",\"subtitle\":\"b\",\"body\":\"c\",\"title-loc-key\":\"d\",\"title-loc-args\":[\"e\",\"f\"],\"action-loc-key\":\"g\",\"loc-key\":\"h\",\"loc-args\":[],\"launch-image\":\"i\"}}}"
    );
}

#[test]
fn default_all_fields_in_protocol_order() {
    let mut builder = DefaultNotificationBuilder::new(APSAlert::Plain("Hi".into()));
    builder
        .set_badge(42)
        .set_sound("ping")
        .set_content_available()
        .set_category("news")
        .set_mutable_content();
    let payload = builder.build("t", NotificationOptions::default()).to_json_string();
    assert_eq!(
        payload,
        "{\"aps\":{\"alert\":\"Hi\",\"badge\":42,\"sound\":\"ping\",\"content-available\":1,\"category\":\"news\",\"mutable-content\":1}}"
    );
}

#[test]
fn default_unset_fields_are_absent() {
    let mut builder = DefaultNotificationBuilder::new(APSAlert::Plain("Hi".into()));
    builder.set_category("news");
    let payload = builder.build("t", NotificationOptions::default()).to_json_string();
    let value: Value = serde_json::from_str(&payload).unwrap();
    let aps = value["aps"].as_object().unwrap();
    assert_eq!(aps.len(), 2);
    for key in ["badge", "sound", "content-available", "mutable-content", "url-args"] {
        assert!(!aps.contains_key(key), "unexpected key {}", key);
    }
    assert!(!payload.contains("null"));
}

#[test]
fn default_badge_edges() {
    for (badge, text) in [(0u32, "0"), (9, "9"), (10, "10"), (4294967295, "4294967295")] {
        let mut builder = DefaultNotificationBuilder::new(APSAlert::Plain("Hi".into()));
        builder.set_badge(badge);
        let payload = builder.build("t", NotificationOptions::default()).to_json_string();
        assert_eq!(payload, format!("{{\"aps\":{{\"alert\":\"Hi\",\"badge\":{}}}}}", text));
    }
}

#[test]
fn default_setting_twice_keeps_last() {
    let mut builder = DefaultNotificationBuilder::new(APSAlert::Plain("Hi".into()));
    builder.set_badge(1).set_badge(2).set_sound("a").set_sound("b");
    builder.set_category("x").set_category("y");
    let payload = builder.build("t", NotificationOptions::default()).to_json_string();
    assert_eq!(
        payload,
        "{\"aps\":{\"alert\":\"Hi\",\"badge\":2,\"sound\":\"b\",\"category\":\"y\"}}"
    );
}

#[test]
fn default_critical_sound() {
    let mut builder = DefaultNotificationBuilder::new(APSAlert::Plain("Hi".into()));
    builder.set_critical_sound("alarm", 500);
    let payload = builder.build("t", NotificationOptions::default());
    match &payload.aps.sound {
        Some(APSSound::Critical(c)) => {
            assert!(c.critical);
            assert_eq!(c.name, "alarm");
            assert_eq!(c.volume, 500);
        }
        _ => panic!("expected a critical sound"),
    }
    let text = payload.to_json_string();
    assert_eq!(
        text,
        "{\"aps\":{\"alert\":\"Hi\",\"sound\":{\"critical\":true,\"name\":\"alarm\",\"volume\":0.500}}}"
    );
    let value: Value = serde_json::from_str(&text).unwrap();
    assert_eq!(value["aps"]["sound"]["volume"].as_f64(), Some(0.5));
}

#[test]
fn default_critical_sound_volume_edges() {
    for (volume, text) in [(0u32, "0.000"), (7, "0.007"), (1000, "1.000"), (12345, "12.345")] {
        let mut builder = DefaultNotificationBuilder::new(APSAlert::Plain("Hi".into()));
        builder.set_critical_sound("s", volume);
        let payload = builder.build("t", NotificationOptions::default()).to_json_string();
        assert!(payload.ends_with(&format!("\"volume\":{}}}}}}}", text)), "{}", payload);
    }
}

#[test]
fn default_sound_replaces_critical_sound() {
    let mut builder = DefaultNotificationBuilder::new(APSAlert::Plain("Hi".into()));
    builder.set_critical_sound("alarm", 1000).set_sound("soft");
    let payload = builder.build("t", NotificationOptions::default()).to_json_string();
    assert_eq!(payload, "{\"aps\":{\"alert\":\"Hi\",\"sound\":\"soft\"}}");
}

#[test]
fn default_round_trip_is_structurally_equal() {
    let mut alert = empty_default_alert();
    alert.body = Some("b\u{1}\"".into());
    alert.loc_args = Some(vec!["x".into()]);
    let mut builder = DefaultNotificationBuilder::new(APSAlert::Default(alert));
    builder.set_badge(3).set_critical_sound("c", 250).set_mutable_content();
    let text = builder.build("t", NotificationOptions::default()).to_json_string();
    let first: Value = serde_json::from_str(&text).unwrap();
    let again = serde_json::to_string(&first).unwrap();
    let second: Value = serde_json::from_str(&again).unwrap();
    assert_eq!(first, second);
}
