//! Builders for the JSON payload of push notifications.
//!
//! A builder gathers a notification's content (alert, sound, badge and the
//! like), and `build` turns it into a [`payload::Payload`] for one device, with
//! its delivery options beside it. [`payload::Payload::to_json_string`] writes
//! the wire JSON: fields under the reserved `aps` key with hyphenated names,
//! every unset field left out, then the caller's own top-level fields.
pub mod json;
pub mod notification;
pub mod options;
pub mod payload;
pub mod value;
