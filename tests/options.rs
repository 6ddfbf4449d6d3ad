use a2::options::{CollapseId, NotificationOptions, OptionsError, Priority, PushType};

#[test]
fn priority_values() {
    assert_eq!(Priority::Normal.value(), 5);
    assert_eq!(Priority::High.value(), 10);
}

#[test]
fn push_type_names() {
    assert_eq!(PushType::Alert.name(), "alert");
    assert_eq!(PushType::Background.name(), "background");
    assert_eq!(PushType::Voip.name(), "voip");
    assert_eq!(PushType::Complication.name(), "complication");
    assert_eq!(PushType::FileProvider.name(), "fileprovider");
    assert_eq!(PushType::Mdm.name(), "mdm");
}

#[test]
fn collapse_id_length_limit() {
    let longest = "a".repeat(64);
    assert_eq!(CollapseId::new(&longest).unwrap().as_str(), longest);
    assert_eq!(CollapseId::new("").unwrap().as_str(), "");
    assert!(matches!(
        CollapseId::new(&"a".repeat(65)),
        Err(OptionsError::CollapseIdTooLong)
    ));
}

#[test]
fn collapse_id_counts_bytes() {
    // 32 characters of two bytes each fit; one more does not.
    let fits = "\u{e9}".repeat(32);
    assert!(CollapseId::new(&fits).is_ok());
    let too_long = format!("{}a", fits);
    assert!(matches!(CollapseId::new(&too_long), Err(OptionsError::CollapseIdTooLong)));
}

#[test]
fn default_options_are_empty() {
    let options = NotificationOptions::default();
    assert!(options.apns_id.is_none());
    assert!(options.apns_expiration.is_none());
    assert!(options.apns_priority.is_none());
    assert!(options.apns_topic.is_none());
    assert!(options.apns_collapse_id.is_none());
    assert!(options.apns_push_type.is_none());
}
