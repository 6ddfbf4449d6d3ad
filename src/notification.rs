use vstd::prelude::*;
use crate::json::{decimal, json_object, json_str, json_str_array, views};
use crate::options::NotificationOptions;
use crate::payload::{
    alert_json, aps_fields, aps_keys, data_fields, flag_json, keys_of, opt_array_json, opt_field,
    opt_str_json, payload_json, sound_json, APSAlert, APSSound, DefaultSound, Payload, WebPushAlert,
    APS,
};

verus! {

/// The sound of `aps` is the file named `name`.
pub open spec fn sound_named(aps: APS, name: Seq<char>) -> bool {
    match aps.sound {
        Some(APSSound::Sound(s)) => s@ == name,
        _ => false,
    }
}

/// `after` is `before` with its sound replaced by the file named `name`.
pub open spec fn sound_replaced(before: APS, after: APS, name: Seq<char>) -> bool {
    &&& sound_named(after, name)
    &&& after.alert == before.alert
    &&& after.badge == before.badge
    &&& after.content_available == before.content_available
    &&& after.category == before.category
    &&& after.mutable_content == before.mutable_content
    &&& after.url_args == before.url_args
}

/// `p` carries `aps` to the device `device_token` with `options`.
pub open spec fn payload_of(p: Payload, aps: APS, device_token: Seq<char>, options: NotificationOptions) -> bool {
    &&& p.aps == aps
    &&& p.device_token@ == device_token
    &&& p.options == options
    &&& p.data@.len() == 0
}

/// What every notification builder does: turn what it has gathered into a payload.
pub trait NotificationBuilder: Sized {
    /// The `aps` part that building would give.
    spec fn spec_aps(&self) -> APS;

    /// The payload for `device_token`, carrying `options`. The builder is used up.
    fn build(self, device_token: &str, options: NotificationOptions) -> (r: Payload)
        ensures
            payload_of(r, self.spec_aps(), device_token@, options),
    ;
}

/// A builder of web push notifications: an alert with title, body and action,
/// the arguments for the action's URL, and an optional sound.
pub struct WebNotificationBuilder {
    alert: WebPushAlert,
    sound: Option<String>,
    url_args: Vec<String>,
}

impl WebNotificationBuilder {
    /// A builder with the required content and no sound.
    pub fn new(alert: WebPushAlert, url_args: &[&str]) -> (r: WebNotificationBuilder)
        ensures
            r.spec_aps() == (APS {
                alert: Some(APSAlert::WebPush(alert)),
                badge: None,
                sound: None,
                content_available: false,
                category: None,
                mutable_content: false,
                url_args: r.spec_aps().url_args,
            }),
            r.spec_aps().url_args is Some,
            views(r.spec_aps().url_args->0@) == url_args@.map_values(|s: &str| s@),
    {
        let mut args: Vec<String> = Vec::new();
        let mut i: usize = 0;
        while i < url_args.len()
            invariant
                i <= url_args@.len(),
                views(args@) == url_args@.take(i as int).map_values(|s: &str| s@),
            decreases url_args@.len() - i,
        {
            let arg = String::from_str(url_args[i]);
            let ghost before = args@;
            args.push(arg);
            proof {
                assert(arg@ == url_args@[i as int]@);
                assert(args@ == before.push(arg));
                assert(views(args@) =~= views(before).push(arg@));
                assert(url_args@.take(i as int + 1) =~= url_args@.take(i as int).push(url_args@[i as int]));
                assert(views(args@) =~= url_args@.take(i as int + 1).map_values(|s: &str| s@));
            }
            i = i + 1;
        }
        proof {
            assert(url_args@.take(url_args@.len() as int) =~= url_args@);
        }
        WebNotificationBuilder { alert, sound: None, url_args: args }
    }

    /// Sets the file name of the sound to play, replacing any earlier one.
    pub fn set_sound(&mut self, sound: &str) -> (r: &mut Self)
        ensures
            sound_replaced(old(self).spec_aps(), r.spec_aps(), sound@),
            *final(self) == *final(r),
    {
        self.sound = Some(String::from_str(sound));
        self
    }
}

impl NotificationBuilder for WebNotificationBuilder {
    closed spec fn spec_aps(&self) -> APS {
        APS {
            alert: Some(APSAlert::WebPush(self.alert)),
            badge: None,
            sound: match self.sound {
                Some(s) => Some(APSSound::Sound(s)),
                None => None,
            },
            content_available: false,
            category: None,
            mutable_content: false,
            url_args: Some(self.url_args),
        }
    }

    fn build(self, device_token: &str, options: NotificationOptions) -> (r: Payload) {
        let sound = match self.sound {
            Some(s) => Some(APSSound::Sound(s)),
            None => None,
        };
        Payload {
            aps: APS {
                alert: Some(APSAlert::WebPush(self.alert)),
                badge: None,
                sound,
                content_available: false,
                category: None,
                mutable_content: false,
                url_args: Some(self.url_args),
            },
            device_token: String::from_str(device_token),
            options,
            data: Vec::new(),
        }
    }
}

/// The key `k` when `present`, nothing otherwise.
pub open spec fn opt_key(k: Seq<char>, present: bool) -> Seq<Seq<char>> {
    if present {
        seq![k]
    } else {
        seq![]
    }
}

/// Nothing but the alert is set in `aps`.
pub open spec fn is_bare(aps: APS) -> bool {
    &&& aps.alert is Some
    &&& aps.badge is None
    &&& aps.sound is None
    &&& !aps.content_available
    &&& aps.category is None
    &&& !aps.mutable_content
    &&& aps.url_args is None
}

/// A builder of general notifications: an alert, plain or structured, and the
/// optional badge, sound, category and the two flags.
pub struct DefaultNotificationBuilder {
    alert: APSAlert,
    badge: Option<u32>,
    sound: Option<APSSound>,
    category: Option<String>,
    content_available: bool,
    mutable_content: bool,
}

impl DefaultNotificationBuilder {
    /// A builder with the alert and nothing else set.
    pub fn new(alert: APSAlert) -> (r: DefaultNotificationBuilder)
        ensures
            is_bare(r.spec_aps()),
            r.spec_aps().alert == Some(alert),
    {
        DefaultNotificationBuilder {
            alert,
            badge: None,
            sound: None,
            category: None,
            content_available: false,
            mutable_content: false,
        }
    }

    /// Sets the number shown on the application's icon, replacing any earlier one.
    pub fn set_badge(&mut self, badge: u32) -> (r: &mut Self)
        ensures
            r.spec_aps() == (APS { badge: Some(badge), ..old(self).spec_aps() }),
            *final(self) == *final(r),
    {
        self.badge = Some(badge);
        self
    }

    /// Sets the file name of the sound to play, replacing any earlier sound.
    pub fn set_sound(&mut self, sound: &str) -> (r: &mut Self)
        ensures
            sound_replaced(old(self).spec_aps(), r.spec_aps(), sound@),
            *final(self) == *final(r),
    {
        self.sound = Some(APSSound::Sound(String::from_str(sound)));
        self
    }

    /// Sets a critical alert sound, with its volume in thousandths of full
    /// volume, replacing any earlier sound.
    pub fn set_critical_sound(&mut self, name: &str, volume: u32) -> (r: &mut Self)
        ensures
            r.spec_aps() == (APS { sound: r.spec_aps().sound, ..old(self).spec_aps() }),
            match r.spec_aps().sound {
                Some(APSSound::Critical(c)) => c.critical && c.name@ == name@ && c.volume == volume,
                _ => false,
            },
            *final(self) == *final(r),
    {
        self.sound = Some(APSSound::Critical(DefaultSound { critical: true, name: String::from_str(name), volume }));
        self
    }

    /// Sets the category of the notification, replacing any earlier one.
    pub fn set_category(&mut self, category: &str) -> (r: &mut Self)
        ensures
            r.spec_aps() == (APS { category: r.spec_aps().category, ..old(self).spec_aps() }),
            match r.spec_aps().category {
                Some(c) => c@ == category@,
                None => false,
            },
            *final(self) == *final(r),
    {
        self.category = Some(String::from_str(category));
        self
    }

    /// Marks the notification as one that wakes the application in the background.
    pub fn set_content_available(&mut self) -> (r: &mut Self)
        ensures
            r.spec_aps() == (APS { content_available: true, ..old(self).spec_aps() }),
            *final(self) == *final(r),
    {
        self.content_available = true;
        self
    }

    /// Marks the notification as one that the application may change before it is shown.
    pub fn set_mutable_content(&mut self) -> (r: &mut Self)
        ensures
            r.spec_aps() == (APS { mutable_content: true, ..old(self).spec_aps() }),
            *final(self) == *final(r),
    {
        self.mutable_content = true;
        self
    }
}

impl NotificationBuilder for DefaultNotificationBuilder {
    closed spec fn spec_aps(&self) -> APS {
        APS {
            alert: Some(self.alert),
            badge: self.badge,
            sound: self.sound,
            content_available: self.content_available,
            category: self.category,
            mutable_content: self.mutable_content,
            url_args: None,
        }
    }

    fn build(self, device_token: &str, options: NotificationOptions) -> (r: Payload) {
        Payload {
            aps: APS {
                alert: Some(self.alert),
                badge: self.badge,
                sound: self.sound,
                content_available: self.content_available,
                category: self.category,
                mutable_content: self.mutable_content,
                url_args: None,
            },
            device_token: String::from_str(device_token),
            options,
            data: Vec::new(),
        }
    }
}

/// The keys of the `aps` literals, all distinct.
proof fn lemma_key_literals()
    ensures
        "alert"@ != "badge"@,
        "alert"@ != "sound"@,
        "alert"@ != "content-available"@,
        "alert"@ != "category"@,
        "alert"@ != "mutable-content"@,
        "alert"@ != "url-args"@,
        "badge"@ != "sound"@,
        "badge"@ != "content-available"@,
        "badge"@ != "category"@,
        "badge"@ != "mutable-content"@,
        "badge"@ != "url-args"@,
        "sound"@ != "content-available"@,
        "sound"@ != "category"@,
        "sound"@ != "mutable-content"@,
        "sound"@ != "url-args"@,
        "content-available"@ != "category"@,
        "content-available"@ != "mutable-content"@,
        "content-available"@ != "url-args"@,
        "category"@ != "mutable-content"@,
        "category"@ != "url-args"@,
        "mutable-content"@ != "url-args"@,
{
    reveal_strlit("alert");
    reveal_strlit("badge");
    reveal_strlit("sound");
    reveal_strlit("content-available");
    reveal_strlit("category");
    reveal_strlit("mutable-content");
    reveal_strlit("url-args");
    assert("alert"@[0] != "badge"@[0]);
    assert("alert"@[0] != "sound"@[0]);
    assert("alert"@[0] != "content-available"@[0]);
    assert("alert"@[0] != "category"@[0]);
    assert("alert"@[0] != "mutable-content"@[0]);
    assert("alert"@[0] != "url-args"@[0]);
    assert("badge"@[0] != "sound"@[0]);
    assert("badge"@[0] != "content-available"@[0]);
    assert("badge"@[0] != "category"@[0]);
    assert("badge"@[0] != "mutable-content"@[0]);
    assert("badge"@[0] != "url-args"@[0]);
    assert("sound"@[0] != "content-available"@[0]);
    assert("sound"@[0] != "category"@[0]);
    assert("sound"@[0] != "mutable-content"@[0]);
    assert("sound"@[0] != "url-args"@[0]);
    assert("content-available"@[2] != "category"@[2]);
    assert("content-available"@[0] != "mutable-content"@[0]);
    assert("content-available"@[0] != "url-args"@[0]);
    assert("category"@[0] != "mutable-content"@[0]);
    assert("category"@[0] != "url-args"@[0]);
    assert("mutable-content"@[0] != "url-args"@[0]);
}

/// The keys of two lists of members, one after the other.
proof fn lemma_keys_concat(a: Seq<(Seq<char>, Seq<char>)>, b: Seq<(Seq<char>, Seq<char>)>)
    ensures
        keys_of(a + b) == keys_of(a) + keys_of(b),
{
    assert(keys_of(a + b) =~= keys_of(a) + keys_of(b));
}

/// An item is among two lists exactly when it is among one of them.
proof fn lemma_contains_concat<T>(a: Seq<T>, b: Seq<T>, x: T)
    ensures
        (a + b).contains(x) <==> a.contains(x) || b.contains(x),
{
    if a.contains(x) {
        let i = choose|i: int| 0 <= i < a.len() && a[i] == x;
        assert((a + b)[i] == x);
    }
    if b.contains(x) {
        let i = choose|i: int| 0 <= i < b.len() && b[i] == x;
        assert((a + b)[a.len() + i] == x);
    }
    if (a + b).contains(x) {
        let i = choose|i: int| 0 <= i < (a + b).len() && (a + b)[i] == x;
        if i < a.len() {
            assert(a[i] == x);
        } else {
            assert(b[i - a.len()] == x);
        }
    }
}

/// The keys of the `aps` object, field by field.
proof fn lemma_aps_keys_parts(aps: APS)
    ensures
        aps_keys(aps) == opt_key("alert"@, aps.alert is Some) + opt_key("badge"@, aps.badge is Some)
            + opt_key("sound"@, aps.sound is Some) + opt_key("content-available"@, aps.content_available)
            + opt_key("category"@, aps.category is Some) + opt_key("mutable-content"@, aps.mutable_content)
            + opt_key("url-args"@, aps.url_args is Some),
{
    let f0 = opt_field("alert"@, match aps.alert { Some(a) => Some(alert_json(a)), None => None });
    let f1 = opt_field("badge"@, match aps.badge { Some(b) => Some(decimal(b as nat)), None => None });
    let f2 = opt_field("sound"@, match aps.sound { Some(s) => Some(sound_json(s)), None => None });
    let f3 = opt_field("content-available"@, flag_json(aps.content_available));
    let f4 = opt_field("category"@, opt_str_json(aps.category));
    let f5 = opt_field("mutable-content"@, flag_json(aps.mutable_content));
    let f6 = opt_field("url-args"@, opt_array_json(aps.url_args));
    assert(aps_fields(aps) == f0 + f1 + f2 + f3 + f4 + f5 + f6);
    lemma_keys_concat(f0, f1);
    lemma_keys_concat(f0 + f1, f2);
    lemma_keys_concat(f0 + f1 + f2, f3);
    lemma_keys_concat(f0 + f1 + f2 + f3, f4);
    lemma_keys_concat(f0 + f1 + f2 + f3 + f4, f5);
    lemma_keys_concat(f0 + f1 + f2 + f3 + f4 + f5, f6);
    assert(keys_of(f0) =~= opt_key("alert"@, aps.alert is Some));
    assert(keys_of(f1) =~= opt_key("badge"@, aps.badge is Some));
    assert(keys_of(f2) =~= opt_key("sound"@, aps.sound is Some));
    assert(keys_of(f3) =~= opt_key("content-available"@, aps.content_available));
    assert(keys_of(f4) =~= opt_key("category"@, aps.category is Some));
    assert(keys_of(f5) =~= opt_key("mutable-content"@, aps.mutable_content));
    assert(keys_of(f6) =~= opt_key("url-args"@, aps.url_args is Some));
}

/// An item is among seven lists, one after the other, exactly when it is among one of them.
proof fn lemma_contains_seven<T>(
    k0: Seq<T>,
    k1: Seq<T>,
    k2: Seq<T>,
    k3: Seq<T>,
    k4: Seq<T>,
    k5: Seq<T>,
    k6: Seq<T>,
    x: T,
)
    ensures
        (k0 + k1 + k2 + k3 + k4 + k5 + k6).contains(x) <==> k0.contains(x) || k1.contains(x)
            || k2.contains(x) || k3.contains(x) || k4.contains(x) || k5.contains(x) || k6.contains(x),
{
    lemma_contains_concat(k0, k1, x);
    lemma_contains_concat(k0 + k1, k2, x);
    lemma_contains_concat(k0 + k1 + k2, k3, x);
    lemma_contains_concat(k0 + k1 + k2 + k3, k4, x);
    lemma_contains_concat(k0 + k1 + k2 + k3 + k4, k5, x);
    lemma_contains_concat(k0 + k1 + k2 + k3 + k4 + k5, k6, x);
}

/// A key given with whether it is present holds `x` exactly when it is `x` and present.
proof fn lemma_opt_key_contains(k: Seq<char>, present: bool, x: Seq<char>)
    ensures
        opt_key(k, present).contains(x) <==> present && k == x,
{
    if present {
        assert(opt_key(k, present)[0] == k);
    }
}

/// Whether `x` is among the keys of `aps`, field by field.
proof fn lemma_aps_key(aps: APS, x: Seq<char>)
    ensures
        aps_keys(aps).contains(x) <==> (aps.alert is Some && x == "alert"@) || (aps.badge is Some && x
            == "badge"@) || (aps.sound is Some && x == "sound"@) || (aps.content_available && x
            == "content-available"@) || (aps.category is Some && x == "category"@) || (
        aps.mutable_content && x == "mutable-content"@) || (aps.url_args is Some && x == "url-args"@),
{
    lemma_aps_keys_parts(aps);
    lemma_contains_seven(
        opt_key("alert"@, aps.alert is Some),
        opt_key("badge"@, aps.badge is Some),
        opt_key("sound"@, aps.sound is Some),
        opt_key("content-available"@, aps.content_available),
        opt_key("category"@, aps.category is Some),
        opt_key("mutable-content"@, aps.mutable_content),
        opt_key("url-args"@, aps.url_args is Some),
        x,
    );
    lemma_opt_key_contains("alert"@, aps.alert is Some, x);
    lemma_opt_key_contains("badge"@, aps.badge is Some, x);
    lemma_opt_key_contains("sound"@, aps.sound is Some, x);
    lemma_opt_key_contains("content-available"@, aps.content_available, x);
    lemma_opt_key_contains("category"@, aps.category is Some, x);
    lemma_opt_key_contains("mutable-content"@, aps.mutable_content, x);
    lemma_opt_key_contains("url-args"@, aps.url_args is Some, x);
}

/// Every optional field of `aps` appears in the output exactly when it is set:
/// an unset field leaves no key behind.
pub proof fn lemma_unset_fields_absent(aps: APS)
    ensures
        aps_keys(aps).contains("alert"@) <==> aps.alert is Some,
        aps_keys(aps).contains("badge"@) <==> aps.badge is Some,
        aps_keys(aps).contains("sound"@) <==> aps.sound is Some,
        aps_keys(aps).contains("content-available"@) <==> aps.content_available,
        aps_keys(aps).contains("category"@) <==> aps.category is Some,
        aps_keys(aps).contains("mutable-content"@) <==> aps.mutable_content,
        aps_keys(aps).contains("url-args"@) <==> aps.url_args is Some,
{
    lemma_key_literals();
    lemma_aps_key(aps, "alert"@);
    lemma_aps_key(aps, "badge"@);
    lemma_aps_key(aps, "sound"@);
    lemma_aps_key(aps, "content-available"@);
    lemma_aps_key(aps, "category"@);
    lemma_aps_key(aps, "mutable-content"@);
    lemma_aps_key(aps, "url-args"@);
}

/// A member given with an optional value holds `x` exactly when the value is
/// there and `x` is that member.
proof fn lemma_opt_field_contains(
    k: Seq<char>,
    value: Option<Seq<char>>,
    x: (Seq<char>, Seq<char>),
)
    ensures
        opt_field(k, value).contains(x) <==> value is Some && x == (k, value->0),
{
    if value is Some {
        assert(opt_field(k, value)[0] == (k, value->0));
    }
}

/// Whether the member `x` is among the members of `aps`, field by field.
proof fn lemma_aps_member(aps: APS, x: (Seq<char>, Seq<char>))
    ensures
        aps_fields(aps).contains(x) <==> {
            ||| aps.alert is Some && x == ("alert"@, alert_json(aps.alert->0))
            ||| aps.badge is Some && x == ("badge"@, decimal(aps.badge->0 as nat))
            ||| aps.sound is Some && x == ("sound"@, sound_json(aps.sound->0))
            ||| aps.content_available && x == ("content-available"@, seq!['1'])
            ||| aps.category is Some && x == ("category"@, json_str(aps.category->0@))
            ||| aps.mutable_content && x == ("mutable-content"@, seq!['1'])
            ||| aps.url_args is Some && x == ("url-args"@, json_str_array(views(aps.url_args->0@)))
        },
{
    let v0 = match aps.alert { Some(a) => Some(alert_json(a)), None => None };
    let v1 = match aps.badge { Some(b) => Some(decimal(b as nat)), None => None };
    let v2 = match aps.sound { Some(s) => Some(sound_json(s)), None => None };
    let v3 = flag_json(aps.content_available);
    let v4 = opt_str_json(aps.category);
    let v5 = flag_json(aps.mutable_content);
    let v6 = opt_array_json(aps.url_args);
    lemma_contains_seven(
        opt_field("alert"@, v0),
        opt_field("badge"@, v1),
        opt_field("sound"@, v2),
        opt_field("content-available"@, v3),
        opt_field("category"@, v4),
        opt_field("mutable-content"@, v5),
        opt_field("url-args"@, v6),
        x,
    );
    lemma_opt_field_contains("alert"@, v0, x);
    lemma_opt_field_contains("badge"@, v1, x);
    lemma_opt_field_contains("sound"@, v2, x);
    lemma_opt_field_contains("content-available"@, v3, x);
    lemma_opt_field_contains("category"@, v4, x);
    lemma_opt_field_contains("mutable-content"@, v5, x);
    lemma_opt_field_contains("url-args"@, v6, x);
}

/// A default builder with nothing but its alert set gives `{"aps":{"alert":...}}`
/// and no other key, whatever the shape of the alert.
pub proof fn lemma_bare_default_payload(
    b: DefaultNotificationBuilder,
    device_token: Seq<char>,
    options: NotificationOptions,
    p: Payload,
)
    requires
        is_bare(b.spec_aps()),
        payload_of(p, b.spec_aps(), device_token, options),
    ensures
        payload_json(p) == json_object(
            seq![("aps"@, json_object(seq![("alert"@, alert_json(b.spec_aps().alert->0))]))],
        ),
{
    assert(aps_fields(p.aps) =~= seq![("alert"@, alert_json(b.spec_aps().alert->0))]);
    assert(data_fields(p.data@) =~= Seq::<(Seq<char>, Seq<char>)>::empty());
    assert(seq![("aps"@, json_object(aps_fields(p.aps)))] + data_fields(p.data@) =~= seq![
        ("aps"@, json_object(aps_fields(p.aps))),
    ]);
}

/// A web push payload always has the `url-args` key, even for no arguments, and
/// never `badge`, `content-available`, `category` or `mutable-content`.
pub proof fn lemma_web_payload_keys(
    b: WebNotificationBuilder,
    device_token: Seq<char>,
    options: NotificationOptions,
    p: Payload,
)
    requires
        payload_of(p, b.spec_aps(), device_token, options),
    ensures
        aps_keys(p.aps).contains("alert"@),
        aps_keys(p.aps).contains("url-args"@),
        !aps_keys(p.aps).contains("badge"@),
        !aps_keys(p.aps).contains("content-available"@),
        !aps_keys(p.aps).contains("category"@),
        !aps_keys(p.aps).contains("mutable-content"@),
{
    lemma_unset_fields_absent(p.aps);
}

/// Setting the sound twice is the same as setting only the second one, and the
/// output's `sound` member holds the second name and no other value.
pub proof fn lemma_last_sound_wins(a0: APS, a1: APS, a2: APS, first: Seq<char>, second: Seq<char>)
    requires
        sound_replaced(a0, a1, first),
        sound_replaced(a1, a2, second),
    ensures
        sound_replaced(a0, a2, second),
        forall|v: Seq<char>| aps_fields(a2).contains(("sound"@, v)) <==> v == json_str(second),
{
    lemma_key_literals();
    assert forall|v: Seq<char>| aps_fields(a2).contains(("sound"@, v)) <==> v == json_str(second) by {
        lemma_aps_member(a2, ("sound"@, v));
    }
}

/// The decimal text of a number starts with a digit.
proof fn lemma_decimal_starts_with_digit(n: nat)
    ensures
        decimal(n).len() > 0,
        '0' <= decimal(n)[0] <= '9',
    decreases n,
{
    if n >= 10 {
        lemma_decimal_starts_with_digit(n / 10);
    }
}

/// No member of the `aps` object has the value `null`: an absent field is left
/// out, never written as `null`.
pub proof fn lemma_no_null_values(aps: APS)
    ensures
        forall|x: (Seq<char>, Seq<char>)| #[trigger] aps_fields(aps).contains(x) ==> x.1 != "null"@,
{
    reveal_strlit("null");
    assert forall|x: (Seq<char>, Seq<char>)| #[trigger] aps_fields(aps).contains(x) implies x.1 != "null"@ by {
        lemma_aps_member(aps, x);
        if aps.badge is Some && x.1 == decimal(aps.badge->0 as nat) {
            lemma_decimal_starts_with_digit(aps.badge->0 as nat);
        }
        assert(x.1.len() > 0 && x.1[0] != 'n');
        assert("null"@[0] == 'n');
    }
}

} // verus!