use podog::decimal::{format_u32, parse_u32};
use podog::form::{build_fields, decode_fields, encode_body, submission_body, FieldKey};
use podog::request::{
    expires_validator, retry_validator, Credentials, NotificationRequest, ValidationError,
};

fn creds() -> Credentials {
    Credentials { api_key: String::from("app"), user_key: String::from("usr") }
}

fn plain(message: &str) -> NotificationRequest {
    NotificationRequest {
        message: String::from(message),
        title: String::new(),
        html: false,
        url: String::new(),
        url_title: String::new(),
        devices: String::new(),
        sound: String::new(),
        priority: None,
        retry: None,
        expire: None,
    }
}

fn full() -> NotificationRequest {
    NotificationRequest {
        message: String::from("disk full"),
        title: String::from("alert"),
        html: true,
        url: String::from("https://example.com/x"),
        url_title: String::from("details"),
        devices: String::from("phone,tablet"),
        sound: String::from("siren"),
        priority: Some(2),
        retry: Some(60),
        expire: Some(3600),
    }
}

fn keys(fields: &[(FieldKey, String)]) -> Vec<FieldKey> {
    fields.iter().map(|f| f.0).collect()
}

#[test]
fn format_u32_writes_decimal() {
    assert_eq!(format_u32(0), "0");
    assert_eq!(format_u32(7), "7");
    assert_eq!(format_u32(10800), "10800");
    assert_eq!(format_u32(u32::MAX), "4294967295");
}

#[test]
fn parse_u32_reads_decimal() {
    assert_eq!(parse_u32("30"), Some(30));
    assert_eq!(parse_u32("+30"), Some(30));
    assert_eq!(parse_u32("007"), Some(7));
    assert_eq!(parse_u32("4294967295"), Some(u32::MAX));
    assert_eq!(parse_u32("4294967296"), None);
    assert_eq!(parse_u32(""), None);
    assert_eq!(parse_u32("+"), None);
    assert_eq!(parse_u32("-1"), None);
    assert_eq!(parse_u32("12a"), None);
    assert_eq!(parse_u32(" 12"), None);
}

#[test]
fn retry_validator_bounds() {
    assert_eq!(retry_validator(String::from("30")), Ok(()));
    assert_eq!(retry_validator(String::from("600")), Ok(()));
    assert_eq!(
        retry_validator(String::from("29")),
        Err(String::from("must be at least 30 seconds"))
    );
    assert_eq!(
        retry_validator(String::from("soon")),
        Err(String::from("must be the number of seconds between retries"))
    );
}

#[test]
fn expires_validator_bounds() {
    assert_eq!(expires_validator(String::from("10800")), Ok(()));
    assert_eq!(expires_validator(String::from("0")), Ok(()));
    assert_eq!(
        expires_validator(String::from("10801")),
        Err(String::from("must be less than 10800 seconds"))
    );
    assert_eq!(
        expires_validator(String::from("-5")),
        Err(String::from("must be the number of seconds until retries are stopped"))
    );
}

#[test]
fn validate_accepts_plain_and_emergency() {
    assert_eq!(plain("hi").validate(), Ok(()));
    assert_eq!(full().validate(), Ok(()));
    let mut r = plain("hi");
    r.priority = Some(-2);
    assert_eq!(r.validate(), Ok(()));
}

#[test]
fn validate_rejects_bad_emergency_timing() {
    let mut r = full();
    r.retry = None;
    assert_eq!(r.validate(), Err(ValidationError::MissingRetry));
    let mut r = full();
    r.retry = Some(29);
    assert_eq!(r.validate(), Err(ValidationError::RetryTooShort));
    let mut r = full();
    r.expire = None;
    assert_eq!(r.validate(), Err(ValidationError::MissingExpire));
    let mut r = full();
    r.expire = Some(10801);
    assert_eq!(r.validate(), Err(ValidationError::ExpireTooLong));
}

#[test]
fn validate_rejects_empty_message_and_unknown_priority() {
    assert_eq!(plain("").validate(), Err(ValidationError::EmptyMessage));
    let mut r = plain("hi");
    r.priority = Some(3);
    assert_eq!(r.validate(), Err(ValidationError::PriorityOutOfRange));
}

#[test]
fn build_plain_request_fields() {
    let f = build_fields(&creds(), &plain("hello"));
    assert_eq!(
        f,
        vec![
            (FieldKey::Token, String::from("app")),
            (FieldKey::User, String::from("usr")),
            (FieldKey::Message, String::from("hello")),
        ]
    );
}

#[test]
fn build_omits_timing_below_emergency() {
    let mut r = full();
    r.priority = Some(1);
    let f = build_fields(&creds(), &r);
    assert!(!keys(&f).contains(&FieldKey::Retry));
    assert!(!keys(&f).contains(&FieldKey::Expire));
    assert!(f.contains(&(FieldKey::Priority, String::from("1"))));
}

#[test]
fn build_writes_negative_priority() {
    let mut r = plain("quiet");
    r.priority = Some(-2);
    let f = build_fields(&creds(), &r);
    assert_eq!(f[3], (FieldKey::Priority, String::from("-2")));
}

#[test]
fn build_full_request_fields() {
    let f = build_fields(&creds(), &full());
    assert_eq!(
        keys(&f),
        vec![
            FieldKey::Token,
            FieldKey::User,
            FieldKey::Title,
            FieldKey::Message,
            FieldKey::Html,
            FieldKey::Url,
            FieldKey::UrlTitle,
            FieldKey::Device,
            FieldKey::Sound,
            FieldKey::Priority,
            FieldKey::Retry,
            FieldKey::Expire,
        ]
    );
    assert_eq!(f[4].1, "1");
    assert_eq!(f[9].1, "2");
    assert_eq!(f[10].1, "60");
    assert_eq!(f[11].1, "3600");
}

#[test]
fn round_trip_full_request() {
    let r = full();
    let f = build_fields(&creds(), &r);
    let (c, d) = decode_fields(&f).unwrap();
    assert_eq!(c.api_key, "app");
    assert_eq!(c.user_key, "usr");
    assert_eq!(d.message, r.message);
    assert_eq!(d.title, r.title);
    assert_eq!(d.html, r.html);
    assert_eq!(d.url, r.url);
    assert_eq!(d.url_title, r.url_title);
    assert_eq!(d.devices, r.devices);
    assert_eq!(d.sound, r.sound);
    assert_eq!(d.priority, r.priority);
    assert_eq!(d.retry, r.retry);
    assert_eq!(d.expire, r.expire);
}

#[test]
fn decode_refuses_unreadable_values() {
    let f = vec![(FieldKey::Message, String::from("m")), (FieldKey::Html, String::from("0"))];
    assert!(decode_fields(&f).is_none());
    let f = vec![(FieldKey::Retry, String::from("later"))];
    assert!(decode_fields(&f).is_none());
    let f = vec![(FieldKey::Priority, String::from("5"))];
    assert!(decode_fields(&f).is_none());
}

#[test]
fn decode_takes_first_value_and_defaults() {
    let f = vec![
        (FieldKey::Message, String::from("first")),
        (FieldKey::Message, String::from("second")),
        (FieldKey::Priority, String::from("-1")),
    ];
    let (c, d) = decode_fields(&f).unwrap();
    assert_eq!(c.api_key, "");
    assert_eq!(d.message, "first");
    assert_eq!(d.title, "");
    assert!(!d.html);
    assert_eq!(d.priority, Some(-1));
    assert_eq!(d.retry, None);
}

#[test]
fn encode_body_is_url_encoded() {
    let f = vec![
        (FieldKey::Token, String::from("a")),
        (FieldKey::Message, String::from("hello world & more")),
    ];
    assert_eq!(encode_body(&f), "token=a&message=hello+world+%26+more");
}

#[test]
fn submission_body_of_plain_request() {
    assert_eq!(submission_body(&creds(), &plain("hi there")), "token=app&user=usr&message=hi+there");
}
