use vstd::prelude::*;
use crate::json::{
    decimal, digit_char, json_bool, json_object, json_str, json_str_array, entry_views, views,
    push_char, push_decimal, object_to_json, str_to_json, str_array_to_json,
};
use crate::options::NotificationOptions;
use crate::value::{value_json, JsonValue};

verus! {

/// The alert of a web push notification; all three parts are required.
#[derive(Clone, Debug)]
pub struct WebPushAlert {
    pub title: String,
    pub body: String,
    pub action: String,
}

/// A structured alert; each part is left out of the output when absent.
#[derive(Clone, Debug)]
pub struct DefaultAlert {
    pub title: Option<String>,
    pub subtitle: Option<String>,
    pub body: Option<String>,
    pub title_loc_key: Option<String>,
    pub title_loc_args: Option<Vec<String>>,
    pub action_loc_key: Option<String>,
    pub loc_key: Option<String>,
    pub loc_args: Option<Vec<String>>,
    pub launch_image: Option<String>,
}

/// The shapes the `alert` field can take.
#[derive(Clone, Debug)]
pub enum APSAlert {
    /// A plain string.
    Plain(String),
    /// A dictionary of optional parts.
    Default(DefaultAlert),
    /// The dictionary of a web push notification.
    WebPush(WebPushAlert),
}

/// A critical alert sound, played even when the device is muted.
#[derive(Clone, Debug)]
pub struct DefaultSound {
    pub critical: bool,
    pub name: String,
    /// The volume in thousandths of full volume.
    pub volume: u32,
}

/// The shapes the `sound` field can take.
#[derive(Clone, Debug)]
pub enum APSSound {
    /// The name of a sound file.
    Sound(String),
    /// A critical alert sound.
    Critical(DefaultSound),
}

/// The reserved `aps` part of the payload.
#[derive(Clone, Debug)]
pub struct APS {
    pub alert: Option<APSAlert>,
    pub badge: Option<u32>,
    pub sound: Option<APSSound>,
    /// Written as `"content-available":1` when set, left out otherwise.
    pub content_available: bool,
    pub category: Option<String>,
    /// Written as `"mutable-content":1` when set, left out otherwise.
    pub mutable_content: bool,
    pub url_args: Option<Vec<String>>,
}

/// One notification for one device: its content, the caller's own top-level
/// fields, and its delivery options.
#[derive(Debug)]
pub struct Payload {
    pub aps: APS,
    pub device_token: String,
    pub options: NotificationOptions,
    /// Custom top-level fields, written after `aps` in this order.
    pub data: Vec<(String, JsonValue)>,
}

/// Why custom data was refused.
#[derive(Clone, Copy, Debug, PartialEq, Eq, Structural)]
pub enum CustomDataError {
    /// The key `aps` is reserved for the notification's content.
    ReservedKey,
}

/// The member `key` with value text `value` when present, nothing otherwise.
pub open spec fn opt_field(key: Seq<char>, value: Option<Seq<char>>) -> Seq<(Seq<char>, Seq<char>)> {
    match value {
        Some(v) => seq![(key, v)],
        None => seq![],
    }
}

/// The JSON text of an optional string.
pub open spec fn opt_str_json(s: Option<String>) -> Option<Seq<char>> {
    match s {
        Some(v) => Some(json_str(v@)),
        None => None,
    }
}

/// The JSON text of an optional list of strings.
pub open spec fn opt_array_json(s: Option<Vec<String>>) -> Option<Seq<char>> {
    match s {
        Some(v) => Some(json_str_array(views(v@))),
        None => None,
    }
}

/// The JSON text of the flag value `1` when `b` holds.
pub open spec fn flag_json(b: bool) -> Option<Seq<char>> {
    if b {
        Some(seq!['1'])
    } else {
        None
    }
}

/// The members of a structured alert, in protocol order.
pub open spec fn default_alert_fields(a: DefaultAlert) -> Seq<(Seq<char>, Seq<char>)> {
    opt_field("title"@, opt_str_json(a.title))
        + opt_field("subtitle"@, opt_str_json(a.subtitle))
        + opt_field("body"@, opt_str_json(a.body))
        + opt_field("title-loc-key"@, opt_str_json(a.title_loc_key))
        + opt_field("title-loc-args"@, opt_array_json(a.title_loc_args))
        + opt_field("action-loc-key"@, opt_str_json(a.action_loc_key))
        + opt_field("loc-key"@, opt_str_json(a.loc_key))
        + opt_field("loc-args"@, opt_array_json(a.loc_args))
        + opt_field("launch-image"@, opt_str_json(a.launch_image))
}

/// The members of a web push alert.
pub open spec fn web_alert_fields(a: WebPushAlert) -> Seq<(Seq<char>, Seq<char>)> {
    seq![("title"@, json_str(a.title@)), ("body"@, json_str(a.body@)), ("action"@, json_str(a.action@))]
}

/// The JSON text of an alert.
pub open spec fn alert_json(a: APSAlert) -> Seq<char> {
    match a {
        APSAlert::Plain(s) => json_str(s@),
        APSAlert::Default(d) => json_object(default_alert_fields(d)),
        APSAlert::WebPush(w) => json_object(web_alert_fields(w)),
    }
}

/// The JSON number text of a volume given in thousandths: the whole part, a
/// point and three decimals.
pub open spec fn volume_json(v: nat) -> Seq<char> {
    decimal(v / 1000) + seq!['.', digit_char(v / 100 % 10), digit_char(v / 10 % 10), digit_char(v % 10)]
}

/// The members of a critical sound.
pub open spec fn critical_sound_fields(s: DefaultSound) -> Seq<(Seq<char>, Seq<char>)> {
    seq![
        ("critical"@, json_bool(s.critical)),
        ("name"@, json_str(s.name@)),
        ("volume"@, volume_json(s.volume as nat)),
    ]
}

/// The JSON text of a sound.
pub open spec fn sound_json(s: APSSound) -> Seq<char> {
    match s {
        APSSound::Sound(n) => json_str(n@),
        APSSound::Critical(c) => json_object(critical_sound_fields(c)),
    }
}

/// The members of the `aps` object: exactly the fields that are set, in protocol order.
pub open spec fn aps_fields(aps: APS) -> Seq<(Seq<char>, Seq<char>)> {
    opt_field("alert"@, match aps.alert { Some(a) => Some(alert_json(a)), None => None })
        + opt_field("badge"@, match aps.badge { Some(b) => Some(decimal(b as nat)), None => None })
        + opt_field("sound"@, match aps.sound { Some(s) => Some(sound_json(s)), None => None })
        + opt_field("content-available"@, flag_json(aps.content_available))
        + opt_field("category"@, opt_str_json(aps.category))
        + opt_field("mutable-content"@, flag_json(aps.mutable_content))
        + opt_field("url-args"@, opt_array_json(aps.url_args))
}

/// The keys of the `aps` object.
pub open spec fn aps_keys(aps: APS) -> Seq<Seq<char>> {
    keys_of(aps_fields(aps))
}

/// The keys of a list of object members.
pub open spec fn keys_of(fields: Seq<(Seq<char>, Seq<char>)>) -> Seq<Seq<char>> {
    fields.map_values(|f: (Seq<char>, Seq<char>)| f.0)
}

/// The members for custom data: each key with the JSON text of its value.
pub open spec fn data_fields(data: Seq<(String, JsonValue)>) -> Seq<(Seq<char>, Seq<char>)> {
    data.map_values(|m: (String, JsonValue)| (m.0@, value_json(m.1)))
}

/// The wire JSON of a payload: the member `aps` holding the set fields, then
/// the custom data.
pub open spec fn payload_json(p: Payload) -> Seq<char> {
    json_object(seq![("aps"@, json_object(aps_fields(p.aps)))] + data_fields(p.data@))
}

/// The index of the custom field with key `key`, if there is one.
pub open spec fn data_index(data: Seq<(String, JsonValue)>, key: Seq<char>) -> Option<int> {
    if exists|i: int| 0 <= i < data.len() && data[i].0@ == key {
        Some(choose|i: int| 0 <= i < data.len() && data[i].0@ == key)
    } else {
        None
    }
}

/// No two custom fields share a key, and none is `aps`.
pub open spec fn data_keys_valid(data: Seq<(String, JsonValue)>) -> bool {
    &&& forall|i: int, j: int| 0 <= i < j < data.len() ==> data[i].0@ != data[j].0@
    &&& forall|i: int| 0 <= i < data.len() ==> data[i].0@ != "aps"@
}

/// Appends the member `key` with value text `value` when there is one.
fn push_opt_field(fields: &mut Vec<(String, String)>, key: &str, value: Option<String>)
    ensures
        entry_views(final(fields)@) == entry_views(old(fields)@) + opt_field(
            key@,
            match value { Some(v) => Some(v@), None => None },
        ),
{
    match value {
        Some(v) => {
            fields.push((String::from_str(key), v));
            proof {
                assert(entry_views(fields@) =~= entry_views(old(fields)@) + seq![(key@, v@)]);
            }
        },
        None => {
            proof {
                assert(entry_views(fields@) =~= entry_views(old(fields)@) + seq![]);
            }
        },
    }
}

/// The JSON text of an optional string.
fn opt_str_to_json(s: &Option<String>) -> (r: Option<String>)
    ensures
        match r { Some(v) => Some(v@), None => None } == opt_str_json(*s),
{
    match s {
        Some(v) => Some(str_to_json(v.as_str())),
        None => None,
    }
}

/// The JSON text of an optional list of strings.
fn opt_array_to_json(s: &Option<Vec<String>>) -> (r: Option<String>)
    ensures
        match r { Some(v) => Some(v@), None => None } == opt_array_json(*s),
{
    match s {
        Some(v) => Some(str_array_to_json(v)),
        None => None,
    }
}

/// The JSON text of the flag value `1` when `b` holds.
fn flag_to_json(b: bool) -> (r: Option<String>)
    ensures
        match r { Some(v) => Some(v@), None => None } == flag_json(b),
{
    if b {
        let mut s = String::new();
        push_char(&mut s, '1');
        proof {
            assert(s@ =~= seq!['1']);
        }
        Some(s)
    } else {
        None
    }
}

impl DefaultAlert {
    /// The JSON object text of this alert.
    pub fn to_json(&self) -> (r: String)
        ensures
            r@ == json_object(default_alert_fields(*self)),
    {
        let mut fields: Vec<(String, String)> = Vec::new();
        push_opt_field(&mut fields, "title", opt_str_to_json(&self.title));
        push_opt_field(&mut fields, "subtitle", opt_str_to_json(&self.subtitle));
        push_opt_field(&mut fields, "body", opt_str_to_json(&self.body));
        push_opt_field(&mut fields, "title-loc-key", opt_str_to_json(&self.title_loc_key));
        push_opt_field(&mut fields, "title-loc-args", opt_array_to_json(&self.title_loc_args));
        push_opt_field(&mut fields, "action-loc-key", opt_str_to_json(&self.action_loc_key));
        push_opt_field(&mut fields, "loc-key", opt_str_to_json(&self.loc_key));
        push_opt_field(&mut fields, "loc-args", opt_array_to_json(&self.loc_args));
        push_opt_field(&mut fields, "launch-image", opt_str_to_json(&self.launch_image));
        proof {
            assert(entry_views(fields@) =~= default_alert_fields(*self));
        }
        object_to_json(&fields)
    }
}

impl WebPushAlert {
    /// The JSON object text of this alert.
    pub fn to_json(&self) -> (r: String)
        ensures
            r@ == json_object(web_alert_fields(*self)),
    {
        let mut fields: Vec<(String, String)> = Vec::new();
        fields.push((String::from_str("title"), str_to_json(self.title.as_str())));
        fields.push((String::from_str("body"), str_to_json(self.body.as_str())));
        fields.push((String::from_str("action"), str_to_json(self.action.as_str())));
        proof {
            assert(entry_views(fields@) =~= web_alert_fields(*self));
        }
        object_to_json(&fields)
    }
}

impl APSAlert {
    /// The JSON text of this alert.
    pub fn to_json(&self) -> (r: String)
        ensures
            r@ == alert_json(*self),
    {
        match self {
            APSAlert::Plain(s) => str_to_json(s.as_str()),
            APSAlert::Default(d) => d.to_json(),
            APSAlert::WebPush(w) => w.to_json(),
        }
    }
}

impl DefaultSound {
    /// The JSON object text of this sound.
    pub fn to_json(&self) -> (r: String)
        ensures
            r@ == json_object(critical_sound_fields(*self)),
    {
        let mut fields: Vec<(String, String)> = Vec::new();
        let mut critical = String::new();
        if self.critical {
            critical.append("true");
        } else {
            critical.append("false");
        }
        proof {
            reveal_strlit("true");
            reveal_strlit("false");
            assert(critical@ =~= json_bool(self.critical));
        }
        fields.push((String::from_str("critical"), critical));
        fields.push((String::from_str("name"), str_to_json(self.name.as_str())));
        let mut volume = String::new();
        push_decimal(&mut volume, (self.volume / 1000) as u64);
        push_char(&mut volume, '.');
        push_char(&mut volume, (48u8 + (self.volume / 100 % 10) as u8) as char);
        push_char(&mut volume, (48u8 + (self.volume / 10 % 10) as u8) as char);
        push_char(&mut volume, (48u8 + (self.volume % 10) as u8) as char);
        proof {
            assert(volume@ =~= volume_json(self.volume as nat));
        }
        fields.push((String::from_str("volume"), volume));
        proof {
            assert(entry_views(fields@) =~= critical_sound_fields(*self));
        }
        object_to_json(&fields)
    }
}

impl APSSound {
    /// The JSON text of this sound.
    pub fn to_json(&self) -> (r: String)
        ensures
            r@ == sound_json(*self),
    {
        match self {
            APSSound::Sound(s) => str_to_json(s.as_str()),
            APSSound::Critical(c) => c.to_json(),
        }
    }
}

impl APS {
    /// The JSON object text of the `aps` part: the set fields only, in protocol order.
    pub fn to_json(&self) -> (r: String)
        ensures
            r@ == json_object(aps_fields(*self)),
    {
        let mut fields: Vec<(String, String)> = Vec::new();
        let alert = match &self.alert {
            Some(a) => Some(a.to_json()),
            None => None,
        };
        push_opt_field(&mut fields, "alert", alert);
        let badge = match self.badge {
            Some(b) => {
                let mut s = String::new();
                push_decimal(&mut s, b as u64);
                proof {
                    assert(s@ =~= decimal(b as nat));
                }
                Some(s)
            },
            None => None,
        };
        push_opt_field(&mut fields, "badge", badge);
        let sound = match &self.sound {
            Some(s) => Some(s.to_json()),
            None => None,
        };
        push_opt_field(&mut fields, "sound", sound);
        push_opt_field(&mut fields, "content-available", flag_to_json(self.content_available));
        push_opt_field(&mut fields, "category", opt_str_to_json(&self.category));
        push_opt_field(&mut fields, "mutable-content", flag_to_json(self.mutable_content));
        push_opt_field(&mut fields, "url-args", opt_array_to_json(&self.url_args));
        proof {
            assert(entry_views(fields@) =~= aps_fields(*self));
        }
        object_to_json(&fields)
    }
}

impl Payload {
    /// The wire JSON of this payload.
    pub fn to_json_string(&self) -> (r: String)
        ensures
            r@ == payload_json(*self),
    {
        let mut fields: Vec<(String, String)> = Vec::new();
        fields.push((String::from_str("aps"), self.aps.to_json()));
        let ghost head = seq![("aps"@, json_object(aps_fields(self.aps)))];
        proof {
            assert(entry_views(fields@) =~= head);
        }
        let mut i: usize = 0;
        while i < self.data.len()
            invariant
                i <= self.data@.len(),
                entry_views(fields@) == head + data_fields(self.data@.take(i as int)),
            decreases self.data@.len() - i,
        {
            let ghost before = fields@;
            fields.push((String::from_str(self.data[i].0.as_str()), self.data[i].1.to_json()));
            proof {
                assert(entry_views(fields@) =~= entry_views(before).push(
                    (self.data@[i as int].0@, value_json(self.data@[i as int].1)),
                ));
                assert(self.data@.take(i as int + 1) =~= self.data@.take(i as int).push(self.data@[i as int]));
                assert(data_fields(self.data@.take(i as int + 1)) =~= data_fields(self.data@.take(i as int)).push(
                    (self.data@[i as int].0@, value_json(self.data@[i as int].1)),
                ));
                assert(entry_views(fields@) =~= head + data_fields(self.data@.take(i as int + 1)));
            }
            i = i + 1;
        }
        proof {
            assert(self.data@.take(self.data@.len() as int) =~= self.data@);
        }
        object_to_json(&fields)
    }

    /// Adds a custom top-level field, replacing the value of a field with the
    /// same key. The key `aps` is refused and leaves the payload unchanged.
    pub fn add_custom_data(&mut self, key: &str, value: JsonValue) -> (r: Result<(), CustomDataError>)
        requires
            data_keys_valid(old(self).data@),
        ensures
            key@ == "aps"@ <==> r is Err,
            r is Err ==> r == Err::<(), CustomDataError>(CustomDataError::ReservedKey) && *final(self) == *old(self),
            r is Ok ==> {
                &&& final(self).aps == old(self).aps
                &&& final(self).device_token == old(self).device_token
                &&& final(self).options == old(self).options
                &&& data_keys_valid(final(self).data@)
                &&& match data_index(old(self).data@, key@) {
                    Some(j) => final(self).data@.len() == old(self).data@.len()
                        && final(self).data@[j].0@ == key@ && final(self).data@[j].1 == value
                        && forall|k: int| 0 <= k < old(self).data@.len() && k != j
                            ==> final(self).data@[k] == old(self).data@[k],
                    None => final(self).data@.len() == old(self).data@.len() + 1
                        && final(self).data@.last().0@ == key@ && final(self).data@.last().1 == value
                        && forall|k: int| 0 <= k < old(self).data@.len()
                            ==> final(self).data@[k] == old(self).data@[k],
                }
            },
    {
        let k = String::from_str(key);
        let reserved = String::from_str("aps");
        if k == reserved {
            return Err(CustomDataError::ReservedKey);
        }
        let mut i: usize = 0;
        while i < self.data.len()
            invariant
                i <= self.data@.len(),
                *self == *old(self),
                k@ == key@,
                key@ != "aps"@,
                data_keys_valid(old(self).data@),
                forall|j: int| 0 <= j < i ==> self.data@[j].0@ != key@,
            decreases self.data@.len() - i,
        {
            if self.data[i].0 == k {
                let ghost old_data = self.data@;
                let ghost idx = data_index(old_data, key@);
                proof {
                    assert(old_data[i as int].0@ == key@);
                    let c = choose|c: int| 0 <= c < old_data.len() && old_data[c].0@ == key@;
                    if c != i as int {
                        if c < i as int {
                            assert(old_data[c].0@ != old_data[i as int].0@);
                        } else {
                            assert(old_data[i as int].0@ != old_data[c].0@);
                        }
                    }
                    assert(idx == Some(i as int));
                }
                self.data.set(i, (k, value));
                proof {
                    assert(self.data@ == old_data.update(i as int, (k, value)));
                    assert forall|a: int, b: int| 0 <= a < b < self.data@.len() implies self.data@[a].0@
                        != self.data@[b].0@ by {
                        if a != i as int && b != i as int {
                            assert(self.data@[a] == old_data[a] && self.data@[b] == old_data[b]);
                        }
                    }
                }
                return Ok(());
            }
            i = i + 1;
        }
        proof {
            assert(data_index(old(self).data@, key@) is None);
        }
        let ghost old_data = self.data@;
        self.data.push((k, value));
        proof {
            assert(self.data@ == old_data.push((k, value)));
            assert forall|a: int, b: int| 0 <= a < b < self.data@.len() implies self.data@[a].0@
                != self.data@[b].0@ by {
                if b < old_data.len() {
                    assert(self.data@[a] == old_data[a] && self.data@[b] == old_data[b]);
                } else {
                    assert(self.data@[a] == old_data[a]);
                }
            }
        }
        Ok(())
    }
}

} // verus!
