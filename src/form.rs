//! The form fields of a notification: built from a request, encoded as a
//! URL-encoded body, and read back.
use vstd::prelude::*;
use crate::decimal::{decimal_text, digit_char, digit_value, format_u32, parse_u32, parsed_u32, lemma_decimal_round_trip};
use crate::request::{Credentials, NotificationRequest, EMERGENCY_PRIORITY};

verus! {

#[derive(PartialEq, Eq, Structural, Clone, Copy, Debug)]
pub enum FieldKey {
    Token,
    User,
    Title,
    Message,
    Html,
    Url,
    UrlTitle,
    Device,
    Sound,
    Priority,
    Retry,
    Expire,
}

/// The name under which a field is sent.
pub open spec fn key_name(k: FieldKey) -> Seq<char> {
    match k {
        FieldKey::Token => "token"@,
        FieldKey::User => "user"@,
        FieldKey::Title => "title"@,
        FieldKey::Message => "message"@,
        FieldKey::Html => "html"@,
        FieldKey::Url => "url"@,
        FieldKey::UrlTitle => "url_title"@,
        FieldKey::Device => "device"@,
        FieldKey::Sound => "sound"@,
        FieldKey::Priority => "priority"@,
        FieldKey::Retry => "retry"@,
        FieldKey::Expire => "expire"@,
    }
}

impl FieldKey {
    pub fn name(&self) -> (r: &'static str)
        ensures
            r@ == key_name(*self),
    {
        match self {
            FieldKey::Token => "token",
            FieldKey::User => "user",
            FieldKey::Title => "title",
            FieldKey::Message => "message",
            FieldKey::Html => "html",
            FieldKey::Url => "url",
            FieldKey::UrlTitle => "url_title",
            FieldKey::Device => "device",
            FieldKey::Sound => "sound",
            FieldKey::Priority => "priority",
            FieldKey::Retry => "retry",
            FieldKey::Expire => "expire",
        }
    }
}

pub open spec fn fields_view(v: Seq<(FieldKey, String)>) -> Seq<(FieldKey, Seq<char>)> {
    v.map_values(|f: (FieldKey, String)| (f.0, f.1@))
}

pub open spec fn field_if(present: bool, k: FieldKey, v: Seq<char>) -> Seq<(FieldKey, Seq<char>)> {
    if present {
        seq![(k, v)]
    } else {
        Seq::empty()
    }
}

/// The text of the html flag when it is set.
pub open spec fn flag_text() -> Seq<char> {
    seq!['1']
}

/// Signed decimal text.
pub open spec fn signed_text(p: int) -> Seq<char> {
    if p < 0 {
        seq!['-'] + decimal_text((-p) as nat)
    } else {
        decimal_text(p as nat)
    }
}

pub open spec fn priority_field(p: Option<i8>) -> Seq<(FieldKey, Seq<char>)> {
    match p {
        Some(v) => seq![(FieldKey::Priority, signed_text(v as int))],
        None => Seq::empty(),
    }
}

pub open spec fn seconds_field(gate: bool, k: FieldKey, n: Option<u32>) -> Seq<(FieldKey, Seq<char>)> {
    match n {
        Some(v) => field_if(gate, k, decimal_text(v as nat)),
        None => Seq::empty(),
    }
}

/// The fields sent for request `r`, in order: the tokens, the title if
/// any, the message, then each optional field that is given. Retry and
/// expiration are sent only at emergency priority.
pub open spec fn request_fields(c: Credentials, r: NotificationRequest) -> Seq<(FieldKey, Seq<char>)> {
    seq![(FieldKey::Token, c.api_key@), (FieldKey::User, c.user_key@)]
        + field_if(r.title@.len() > 0, FieldKey::Title, r.title@)
        + seq![(FieldKey::Message, r.message@)]
        + field_if(r.html, FieldKey::Html, flag_text())
        + field_if(r.url@.len() > 0, FieldKey::Url, r.url@)
        + field_if(r.url_title@.len() > 0, FieldKey::UrlTitle, r.url_title@)
        + field_if(r.devices@.len() > 0, FieldKey::Device, r.devices@)
        + field_if(r.sound@.len() > 0, FieldKey::Sound, r.sound@)
        + priority_field(r.priority)
        + seconds_field(r.is_emergency(), FieldKey::Retry, r.retry)
        + seconds_field(r.is_emergency(), FieldKey::Expire, r.expire)
}

fn push_field(fields: &mut Vec<(FieldKey, String)>, present: bool, k: FieldKey, v: String)
    ensures
        fields_view(final(fields)@) == fields_view(old(fields)@) + field_if(present, k, v@),
{
    if present {
        fields.push((k, v));
    }
    assert(fields_view(final(fields)@) =~= fields_view(old(fields)@) + field_if(present, k, v@));
}

fn format_priority(p: i8) -> (r: String)
    ensures
        r@ == signed_text(p as int),
{
    if p < 0 {
        let mut s = String::from_str("-");
        proof { reveal_strlit("-"); }
        let digits = format_u32((0 - (p as i32)) as u32);
        s.append(digits.as_str());
        s
    } else {
        format_u32(p as u32)
    }
}

/// Builds the fields to send for `req` with credentials `cred`. No field
/// is sent empty: an absent one is left out.
pub fn build_fields(cred: &Credentials, req: &NotificationRequest) -> (r: Vec<(FieldKey, String)>)
    ensures
        fields_view(r@) == request_fields(*cred, *req),
{
    let mut f: Vec<(FieldKey, String)> = Vec::new();
    push_field(&mut f, true, FieldKey::Token, cred.api_key.clone());
    push_field(&mut f, true, FieldKey::User, cred.user_key.clone());
    assert(fields_view(f@) =~= seq![(FieldKey::Token, cred.api_key@), (FieldKey::User, cred.user_key@)]);
    push_field(&mut f, req.title.as_str().unicode_len() > 0, FieldKey::Title, req.title.clone());
    push_field(&mut f, true, FieldKey::Message, req.message.clone());
    proof {
        reveal_strlit("1");
    }
    let flag = String::from_str("1");
    assert(flag@ == flag_text());
    push_field(&mut f, req.html, FieldKey::Html, flag);
    push_field(&mut f, req.url.as_str().unicode_len() > 0, FieldKey::Url, req.url.clone());
    push_field(&mut f, req.url_title.as_str().unicode_len() > 0, FieldKey::UrlTitle, req.url_title.clone());
    push_field(&mut f, req.devices.as_str().unicode_len() > 0, FieldKey::Device, req.devices.clone());
    push_field(&mut f, req.sound.as_str().unicode_len() > 0, FieldKey::Sound, req.sound.clone());
    let emergency = match req.priority {
        Some(p) => {
            push_field(&mut f, true, FieldKey::Priority, format_priority(p));
            p == EMERGENCY_PRIORITY
        },
        None => {
            push_field(&mut f, false, FieldKey::Priority, String::new());
            false
        },
    };
    match req.retry {
        Some(t) => push_field(&mut f, emergency, FieldKey::Retry, format_u32(t)),
        None => push_field(&mut f, false, FieldKey::Retry, String::new()),
    }
    match req.expire {
        Some(e) => push_field(&mut f, emergency, FieldKey::Expire, format_u32(e)),
        None => push_field(&mut f, false, FieldKey::Expire, String::new()),
    }
    f
}

/// The URL-encoded form body of name/value pairs, as the form encoder
/// writes it.
pub uninterp spec fn form_body_of(pairs: Seq<(Seq<char>, Seq<char>)>) -> Seq<char>;

pub open spec fn pairs_view(v: Seq<(String, String)>) -> Seq<(Seq<char>, Seq<char>)> {
    v.map_values(|p: (String, String)| (p.0@, p.1@))
}

/// The fields as name/value pairs.
pub open spec fn named_pairs(s: Seq<(FieldKey, Seq<char>)>) -> Seq<(Seq<char>, Seq<char>)> {
    s.map_values(|f: (FieldKey, Seq<char>)| (key_name(f.0), f.1))
}

/// Relies on url::form_urlencoded::Serializer (extend_pairs, then finish):
/// the body it writes depends on the pairs alone.
#[verifier::external_body]
fn form_urlencode(pairs: &Vec<(String, String)>) -> (r: String)
    ensures
        r@ == form_body_of(pairs_view(pairs@)),
{
    url::form_urlencoded::Serializer::new(String::new()).extend_pairs(pairs.iter()).finish()
}

/// Encodes fields as a URL-encoded form body, each under its name.
pub fn encode_body(fields: &Vec<(FieldKey, String)>) -> (r: String)
    ensures
        r@ == form_body_of(named_pairs(fields_view(fields@))),
{
    let mut pairs: Vec<(String, String)> = Vec::new();
    let mut i: usize = 0;
    while i < fields.len()
        invariant
            0 <= i <= fields@.len(),
            pairs@.len() == i,
            forall|j: int| 0 <= j < i ==> (#[trigger] pairs_view(pairs@)[j]) == named_pairs(fields_view(fields@))[j],
        decreases fields@.len() - i,
    {
        let name = String::from_str(fields[i].0.name());
        let value = fields[i].1.clone();
        let ghost before = pairs@;
        pairs.push((name, value));
        proof {
            assert forall|j: int| 0 <= j <= i implies (#[trigger] pairs_view(pairs@)[j]) == named_pairs(fields_view(fields@))[j] by {
                if j < i {
                    assert(pairs@[j] == before[j]);
                    assert(pairs_view(before)[j] == named_pairs(fields_view(fields@))[j]);
                }
            }
        }
        i = i + 1;
    }
    assert(pairs_view(pairs@) =~= named_pairs(fields_view(fields@)));
    form_urlencode(&pairs)
}

/// The form body that submits `req` with credentials `cred`.
pub fn submission_body(cred: &Credentials, req: &NotificationRequest) -> (r: String)
    ensures
        r@ == form_body_of(named_pairs(request_fields(*cred, *req))),
{
    let fields = build_fields(cred, req);
    encode_body(&fields)
}

/// The value of the first field under `k`.
pub open spec fn lookup_from(s: Seq<(FieldKey, Seq<char>)>, k: FieldKey, i: int) -> Option<Seq<char>>
    decreases s.len() - i,
{
    if i < 0 || i >= s.len() {
        None
    } else if s[i].0 == k {
        Some(s[i].1)
    } else {
        lookup_from(s, k, i + 1)
    }
}

pub open spec fn lookup(s: Seq<(FieldKey, Seq<char>)>, k: FieldKey) -> Option<Seq<char>> {
    lookup_from(s, k, 0)
}

/// The value under `k`, empty when there is none.
pub open spec fn text_of(s: Seq<(FieldKey, Seq<char>)>, k: FieldKey) -> Seq<char> {
    match lookup(s, k) {
        Some(v) => v,
        None => Seq::empty(),
    }
}

/// The priority that a text names: one of -2, -1, 0, 1 and 2.
pub open spec fn priority_of_text(t: Seq<char>) -> Option<i8> {
    if t.len() == 1 && 0 <= digit_value(t[0]) <= 2 {
        Some(digit_value(t[0]) as i8)
    } else if t.len() == 2 && t[0] == '-' && 1 <= digit_value(t[1]) <= 2 {
        Some((0 - digit_value(t[1])) as i8)
    } else {
        None
    }
}

pub open spec fn number_of(v: Option<Seq<char>>) -> Option<u32> {
    match v {
        Some(t) => parsed_u32(t),
        None => None,
    }
}

/// Every value that is given can be read: the html flag is `1`, the
/// priority is known, and the retry and expiration are numbers.
pub open spec fn fields_decodable(s: Seq<(FieldKey, Seq<char>)>) -> bool {
    &&& lookup(s, FieldKey::Html) matches Some(v) ==> v == flag_text()
    &&& lookup(s, FieldKey::Priority) matches Some(v) ==> priority_of_text(v) is Some
    &&& lookup(s, FieldKey::Retry) matches Some(v) ==> parsed_u32(v) is Some
    &&& lookup(s, FieldKey::Expire) matches Some(v) ==> parsed_u32(v) is Some
}

/// The fields `s` read as credentials `c` and request `r`: each value is
/// the first one given under its name, and what is absent reads as empty,
/// unset or `None`.
pub open spec fn decodes_to(s: Seq<(FieldKey, Seq<char>)>, c: Credentials, r: NotificationRequest) -> bool {
    &&& c.api_key@ == text_of(s, FieldKey::Token)
    &&& c.user_key@ == text_of(s, FieldKey::User)
    &&& r.title@ == text_of(s, FieldKey::Title)
    &&& r.message@ == text_of(s, FieldKey::Message)
    &&& r.html == (lookup(s, FieldKey::Html) is Some)
    &&& r.url@ == text_of(s, FieldKey::Url)
    &&& r.url_title@ == text_of(s, FieldKey::UrlTitle)
    &&& r.devices@ == text_of(s, FieldKey::Device)
    &&& r.sound@ == text_of(s, FieldKey::Sound)
    &&& r.priority == (match lookup(s, FieldKey::Priority) {
        Some(v) => priority_of_text(v),
        None => None,
    })
    &&& r.retry == number_of(lookup(s, FieldKey::Retry))
    &&& r.expire == number_of(lookup(s, FieldKey::Expire))
}

fn find_field(fields: &Vec<(FieldKey, String)>, k: FieldKey) -> (r: Option<String>)
    ensures
        (match r {
            Some(v) => Some(v@),
            None => None,
        }) == lookup(fields_view(fields@), k),
{
    let ghost s = fields_view(fields@);
    let mut i: usize = 0;
    while i < fields.len()
        invariant
            0 <= i <= fields@.len(),
            s == fields_view(fields@),
            lookup(s, k) == lookup_from(s, k, i as int),
        decreases fields@.len() - i,
    {
        if fields[i].0 == k {
            return Some(fields[i].1.clone());
        }
        i = i + 1;
    }
    None
}

fn text_field(fields: &Vec<(FieldKey, String)>, k: FieldKey) -> (r: String)
    ensures
        r@ == text_of(fields_view(fields@), k),
{
    match find_field(fields, k) {
        Some(v) => v,
        None => String::new(),
    }
}

fn parse_priority(t: &str) -> (r: Option<i8>)
    ensures
        r == priority_of_text(t@),
{
    let len = t.unicode_len();
    if len == 1 {
        let c = t.get_char(0);
        if c == '0' {
            Some(0)
        } else if c == '1' {
            Some(1)
        } else if c == '2' {
            Some(2)
        } else {
            None
        }
    } else if len == 2 && t.get_char(0) == '-' {
        let c = t.get_char(1);
        if c == '1' {
            Some(-1)
        } else if c == '2' {
            Some(-2)
        } else {
            None
        }
    } else {
        None
    }
}

fn is_flag(t: &str) -> (r: bool)
    ensures
        r == (t@ == flag_text()),
{
    if t.unicode_len() == 1 && t.get_char(0) == '1' {
        assert(t@ =~= flag_text());
        true
    } else {
        false
    }
}

/// Reads fields back into credentials and a request. Refused when a
/// given value cannot be read.
pub fn decode_fields(fields: &Vec<(FieldKey, String)>) -> (r: Option<(Credentials, NotificationRequest)>)
    ensures
        r is Some <==> fields_decodable(fields_view(fields@)),
        r matches Some(d) ==> decodes_to(fields_view(fields@), d.0, d.1),
{
    let html = match find_field(fields, FieldKey::Html) {
        Some(v) => {
            if !is_flag(v.as_str()) {
                return None;
            }
            true
        },
        None => false,
    };
    let priority = match find_field(fields, FieldKey::Priority) {
        Some(v) => match parse_priority(v.as_str()) {
            Some(p) => Some(p),
            None => {
                return None;
            },
        },
        None => None,
    };
    let retry = match find_field(fields, FieldKey::Retry) {
        Some(v) => match parse_u32(v.as_str()) {
            Some(n) => Some(n),
            None => {
                return None;
            },
        },
        None => None,
    };
    let expire = match find_field(fields, FieldKey::Expire) {
        Some(v) => match parse_u32(v.as_str()) {
            Some(n) => Some(n),
            None => {
                return None;
            },
        },
        None => None,
    };
    let cred = Credentials {
        api_key: text_field(fields, FieldKey::Token),
        user_key: text_field(fields, FieldKey::User),
    };
    let req = NotificationRequest {
        message: text_field(fields, FieldKey::Message),
        title: text_field(fields, FieldKey::Title),
        html,
        url: text_field(fields, FieldKey::Url),
        url_title: text_field(fields, FieldKey::UrlTitle),
        devices: text_field(fields, FieldKey::Device),
        sound: text_field(fields, FieldKey::Sound),
        priority,
        retry,
        expire,
    };
    Some((cred, req))
}

/// Every field name, in the order in which fields are built.
pub open spec fn all_keys() -> Seq<FieldKey> {
    seq![
        FieldKey::Token,
        FieldKey::User,
        FieldKey::Title,
        FieldKey::Message,
        FieldKey::Html,
        FieldKey::Url,
        FieldKey::UrlTitle,
        FieldKey::Device,
        FieldKey::Sound,
        FieldKey::Priority,
        FieldKey::Retry,
        FieldKey::Expire,
    ]
}

pub open spec fn keys_of(s: Seq<(FieldKey, Seq<char>)>) -> Seq<FieldKey> {
    s.map_values(|f: (FieldKey, Seq<char>)| f.0)
}

/// Every optional field of `r` is given.
pub open spec fn fully_populated(r: NotificationRequest) -> bool {
    &&& r.title@.len() > 0
    &&& r.html
    &&& r.url@.len() > 0
    &&& r.url_title@.len() > 0
    &&& r.devices@.len() > 0
    &&& r.sound@.len() > 0
    &&& r.is_emergency()
    &&& r.retry is Some
    &&& r.expire is Some
}

/// Below emergency priority no retry or expiration field is built.
pub proof fn lemma_no_timing_below_emergency(c: Credentials, r: NotificationRequest)
    requires
        !r.is_emergency(),
    ensures
        forall|i: int| 0 <= i < request_fields(c, r).len() ==>
            (#[trigger] request_fields(c, r)[i]).0 != FieldKey::Retry
            && request_fields(c, r)[i].0 != FieldKey::Expire,
{
    let s = request_fields(c, r);
    assert forall|i: int| 0 <= i < s.len() implies
        (#[trigger] s[i]).0 != FieldKey::Retry && s[i].0 != FieldKey::Expire by {
        assert(seconds_field(r.is_emergency(), FieldKey::Retry, r.retry) =~= Seq::<(FieldKey, Seq<char>)>::empty());
        assert(seconds_field(r.is_emergency(), FieldKey::Expire, r.expire) =~= Seq::<(FieldKey, Seq<char>)>::empty());
    }
}

/// Building the fields of a request with every optional field given, then
/// reading them back, gives back the same credentials and request, and
/// no field beyond one per name.
pub proof fn lemma_fields_round_trip(c: Credentials, r: NotificationRequest)
    requires
        fully_populated(r),
    ensures
        keys_of(request_fields(c, r)) == all_keys(),
        fields_decodable(request_fields(c, r)),
        decodes_to(request_fields(c, r), c, r),
{
    let s = request_fields(c, r);
    let t = r.retry->Some_0;
    let e = r.expire->Some_0;
    lemma_decimal_round_trip(t as nat);
    lemma_decimal_round_trip(e as nat);
    let l = seq![
        (FieldKey::Token, c.api_key@),
        (FieldKey::User, c.user_key@),
        (FieldKey::Title, r.title@),
        (FieldKey::Message, r.message@),
        (FieldKey::Html, flag_text()),
        (FieldKey::Url, r.url@),
        (FieldKey::UrlTitle, r.url_title@),
        (FieldKey::Device, r.devices@),
        (FieldKey::Sound, r.sound@),
        (FieldKey::Priority, signed_text(2)),
        (FieldKey::Retry, decimal_text(t as nat)),
        (FieldKey::Expire, decimal_text(e as nat)),
    ];
    assert(s =~= l);
    assert(keys_of(s) =~= all_keys());
    assert(signed_text(2) == seq![digit_char(2)]);
    reveal_with_fuel(lookup_from, 13);
    assert(lookup(s, FieldKey::Token) == Some(c.api_key@));
    assert(lookup(s, FieldKey::User) == Some(c.user_key@));
    assert(lookup(s, FieldKey::Title) == Some(r.title@));
    assert(lookup(s, FieldKey::Message) == Some(r.message@));
    assert(lookup(s, FieldKey::Html) == Some(flag_text()));
    assert(lookup(s, FieldKey::Url) == Some(r.url@));
    assert(lookup(s, FieldKey::UrlTitle) == Some(r.url_title@));
    assert(lookup(s, FieldKey::Device) == Some(r.devices@));
    assert(lookup(s, FieldKey::Sound) == Some(r.sound@));
    assert(lookup(s, FieldKey::Priority) == Some(signed_text(2)));
    assert(lookup(s, FieldKey::Retry) == Some(decimal_text(t as nat)));
    assert(lookup(s, FieldKey::Expire) == Some(decimal_text(e as nat)));
}

} // verus!
