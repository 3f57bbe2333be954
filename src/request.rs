//! The notification request and the checks made on it before sending.
use vstd::prelude::*;
use crate::decimal::{parse_u32, parsed_u32};

verus! {

/// Shortest retry interval, in seconds, of an emergency notification.
pub const MIN_RETRY_SECS: u32 = 30;

/// Longest expiration window, in seconds, of an emergency notification.
pub const MAX_EXPIRE_SECS: u32 = 10800;

/// The priority that asks for acknowledgment.
pub const EMERGENCY_PRIORITY: i8 = 2;

/// The application token and the recipient token.
pub struct Credentials {
    pub api_key: String,
    pub user_key: String,
}

/// One notification to send. Empty strings, `false` and `None` stand for
/// fields that were not given.
pub struct NotificationRequest {
    pub message: String,
    pub title: String,
    pub html: bool,
    pub url: String,
    pub url_title: String,
    /// Comma-separated device names, passed on as given.
    pub devices: String,
    pub sound: String,
    pub priority: Option<i8>,
    /// Seconds between retries; used only at emergency priority.
    pub retry: Option<u32>,
    /// Seconds until retries stop; used only at emergency priority.
    pub expire: Option<u32>,
}

#[derive(PartialEq, Eq, Structural, Clone, Copy, Debug)]
pub enum ValidationError {
    EmptyMessage,
    PriorityOutOfRange,
    MissingRetry,
    RetryTooShort,
    MissingExpire,
    ExpireTooLong,
}

/// The first rule that `r` breaks, if any.
pub open spec fn validation(r: NotificationRequest) -> Result<(), ValidationError> {
    if r.message@.len() == 0 {
        Err(ValidationError::EmptyMessage)
    } else if r.priority matches Some(p) && (p < -2 || p > EMERGENCY_PRIORITY) {
        Err(ValidationError::PriorityOutOfRange)
    } else if r.priority == Some(EMERGENCY_PRIORITY) {
        match (r.retry, r.expire) {
            (None, _) => Err(ValidationError::MissingRetry),
            (Some(t), _) if t < MIN_RETRY_SECS => Err(ValidationError::RetryTooShort),
            (_, None) => Err(ValidationError::MissingExpire),
            (_, Some(e)) if e > MAX_EXPIRE_SECS => Err(ValidationError::ExpireTooLong),
            _ => Ok(()),
        }
    } else {
        Ok(())
    }
}

impl NotificationRequest {
    pub open spec fn is_emergency(&self) -> bool {
        self.priority == Some(EMERGENCY_PRIORITY)
    }

    /// A retry interval and an expiration window are both given and in bounds.
    pub open spec fn has_valid_timing(&self) -> bool {
        &&& self.retry matches Some(t) && t >= MIN_RETRY_SECS
        &&& self.expire matches Some(e) && e <= MAX_EXPIRE_SECS
    }

    /// Checks the request before anything is sent: a message, a known
    /// priority, and at emergency priority a retry interval of at least
    /// 30 seconds and an expiration window of at most 10800 seconds.
    pub fn validate(&self) -> (r: Result<(), ValidationError>)
        ensures
            r == validation(*self),
    {
        if self.message.as_str().unicode_len() == 0 {
            return Err(ValidationError::EmptyMessage);
        }
        let emergency = match self.priority {
            Some(p) => {
                if p < -2 || p > EMERGENCY_PRIORITY {
                    return Err(ValidationError::PriorityOutOfRange);
                }
                p == EMERGENCY_PRIORITY
            },
            None => false,
        };
        if !emergency {
            return Ok(());
        }
        match self.retry {
            None => {
                return Err(ValidationError::MissingRetry);
            },
            Some(t) => {
                if t < MIN_RETRY_SECS {
                    return Err(ValidationError::RetryTooShort);
                }
            },
        }
        match self.expire {
            None => Err(ValidationError::MissingExpire),
            Some(e) => if e > MAX_EXPIRE_SECS {
                Err(ValidationError::ExpireTooLong)
            } else {
                Ok(())
            },
        }
    }
}

/// Checks a retry interval given as text: a number of seconds, at least 30.
pub fn retry_validator(val: String) -> (r: Result<(), String>)
    ensures
        r is Ok <==> (parsed_u32(val@) matches Some(v) && v >= MIN_RETRY_SECS),
        r matches Err(e) ==> e@ == (if parsed_u32(val@) is None {
            "must be the number of seconds between retries"@
        } else {
            "must be at least 30 seconds"@
        }),
{
    match parse_u32(val.as_str()) {
        Some(v) => if v >= MIN_RETRY_SECS {
            Ok(())
        } else {
            Err(String::from_str("must be at least 30 seconds"))
        },
        None => Err(String::from_str("must be the number of seconds between retries")),
    }
}

/// Checks an expiration window given as text: a number of seconds, at most
/// 10800.
pub fn expires_validator(val: String) -> (r: Result<(), String>)
    ensures
        r is Ok <==> (parsed_u32(val@) matches Some(v) && v <= MAX_EXPIRE_SECS),
        r matches Err(e) ==> e@ == (if parsed_u32(val@) is None {
            "must be the number of seconds until retries are stopped"@
        } else {
            "must be less than 10800 seconds"@
        }),
{
    match parse_u32(val.as_str()) {
        Some(v) => if v <= MAX_EXPIRE_SECS {
            Ok(())
        } else {
            Err(String::from_str("must be less than 10800 seconds"))
        },
        None => Err(String::from_str("must be the number of seconds until retries are stopped")),
    }
}

/// An emergency request that lacks a retry interval or an expiration
/// window, or has one out of bounds, is refused by validation.
pub proof fn lemma_emergency_bounds_enforced(r: NotificationRequest)
    requires
        r.is_emergency(),
        !r.has_valid_timing(),
    ensures
        validation(r) is Err,
{
}

} // verus!
