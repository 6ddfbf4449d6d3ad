use vstd::prelude::*;

verus! {

/// How urgently the delivery service should send the notification.
#[derive(Clone, Copy, Debug, PartialEq, Eq, Structural)]
pub enum Priority {
    /// Send at a time that saves power on the device.
    Normal,
    /// Send immediately.
    High,
}

impl Priority {
    /// The number the protocol uses for this priority.
    pub open spec fn spec_value(self) -> u8 {
        match self {
            Priority::Normal => 5,
            Priority::High => 10,
        }
    }

    /// The number the protocol uses for this priority.
    pub fn value(&self) -> (r: u8)
        ensures
            r == self.spec_value(),
    {
        match self {
            Priority::Normal => 5,
            Priority::High => 10,
        }
    }
}

/// The kind of content the notification carries.
#[derive(Clone, Copy, Debug, PartialEq, Eq, Structural)]
pub enum PushType {
    Alert,
    Background,
    Voip,
    Complication,
    FileProvider,
    Mdm,
}

impl PushType {
    /// The name the protocol uses for this push type.
    pub open spec fn spec_name(self) -> Seq<char> {
        match self {
            PushType::Alert => "alert"@,
            PushType::Background => "background"@,
            PushType::Voip => "voip"@,
            PushType::Complication => "complication"@,
            PushType::FileProvider => "fileprovider"@,
            PushType::Mdm => "mdm"@,
        }
    }

    /// The name the protocol uses for this push type.
    pub fn name(&self) -> (r: &'static str)
        ensures
            r@ == self.spec_name(),
    {
        match self {
            PushType::Alert => "alert",
            PushType::Background => "background",
            PushType::Voip => "voip",
            PushType::Complication => "complication",
            PushType::FileProvider => "fileprovider",
            PushType::Mdm => "mdm",
        }
    }
}

/// The largest length, in bytes, of a collapse identifier.
pub const MAX_COLLAPSE_ID_BYTES: usize = 64;

/// Why a delivery option was refused.
#[derive(Clone, Copy, Debug, PartialEq, Eq, Structural)]
pub enum OptionsError {
    /// The collapse identifier is longer than `MAX_COLLAPSE_ID_BYTES` bytes.
    CollapseIdTooLong,
}

/// An identifier under which the device shows only the latest of several
/// notifications. Its UTF-8 form is at most `MAX_COLLAPSE_ID_BYTES` bytes long.
#[derive(Clone, Debug)]
pub struct CollapseId {
    value: String,
}

impl CollapseId {
    /// The identifier's text.
    pub closed spec fn spec_value(&self) -> Seq<char> {
        self.value@
    }

    /// Accepts `value` when its UTF-8 form is at most `MAX_COLLAPSE_ID_BYTES` bytes long.
    pub fn new(value: &str) -> (r: Result<CollapseId, OptionsError>)
        ensures
            value.len() <= MAX_COLLAPSE_ID_BYTES ==> r is Ok && r->Ok_0.spec_value()
                == value@,
            value.len() > MAX_COLLAPSE_ID_BYTES ==> r == Err::<CollapseId, OptionsError>(
                OptionsError::CollapseIdTooLong,
            ),
    {
        if value.len() > MAX_COLLAPSE_ID_BYTES {
            Err(OptionsError::CollapseIdTooLong)
        } else {
            Ok(CollapseId { value: String::from_str(value) })
        }
    }

    /// The identifier's text.
    pub fn as_str(&self) -> (r: &str)
        ensures
            r@ == self.spec_value(),
    {
        self.value.as_str()
    }
}

/// Delivery metadata, sent beside the notification's content rather than in it.
#[derive(Clone, Debug)]
pub struct NotificationOptions {
    /// A canonical identifier of the notification.
    pub apns_id: Option<String>,
    /// The time, in seconds since the Unix epoch, after which delivery is no longer tried.
    pub apns_expiration: Option<u64>,
    /// How urgently to send; the protocol's default when absent.
    pub apns_priority: Option<Priority>,
    /// The topic of the remote notification, usually the application's bundle identifier.
    pub apns_topic: Option<String>,
    /// Notifications with the same identifier replace each other on the device.
    pub apns_collapse_id: Option<CollapseId>,
    /// The kind of content carried.
    pub apns_push_type: Option<PushType>,
}

impl NotificationOptions {
    /// No option is set.
    pub open spec fn is_empty(&self) -> bool {
        &&& self.apns_id is None
        &&& self.apns_expiration is None
        &&& self.apns_priority is None
        &&& self.apns_topic is None
        &&& self.apns_collapse_id is None
        &&& self.apns_push_type is None
    }
}

impl Default for NotificationOptions {
    /// Options with nothing set.
    fn default() -> (r: NotificationOptions)
        ensures
            r.is_empty(),
    {
        NotificationOptions {
            apns_id: None,
            apns_expiration: None,
            apns_priority: None,
            apns_topic: None,
            apns_collapse_id: None,
            apns_push_type: None,
        }
    }
}

} // verus!
