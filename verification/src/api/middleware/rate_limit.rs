//! Failures of rate-limited calls, and the keys calls are limited by.

use vstd::prelude::*;
use crate::errors::{concat2, concat3};
use crate::text::{decimal, u64_to_string};
use crate::application::use_cases::same_text;

verus! {

/// Why a rate-limited call was refused.
#[derive(Debug)]
pub enum RateLimitMiddlewareError {
    /// The limit was reached; the call may be retried after this many
    /// seconds.
    RateLimitExceeded(u64),
    Internal(String),
}

/// The message of a rate-limit failure.
pub open spec fn rate_limit_error_text(e: RateLimitMiddlewareError) -> Seq<char> {
    match e {
        RateLimitMiddlewareError::RateLimitExceeded(s) => "Rate limit exceeded. Try again in "@ + decimal(s as nat)
            + " seconds."@,
        RateLimitMiddlewareError::Internal(m) => "Internal error: "@ + m@,
    }
}

impl RateLimitMiddlewareError {
    /// The message of this failure.
    pub fn to_string(&self) -> (s: String)
        ensures
            s@ == rate_limit_error_text(*self),
    {
        match self {
            RateLimitMiddlewareError::RateLimitExceeded(secs) => {
                let n = u64_to_string(*secs);
                concat3("Rate limit exceeded. Try again in ", n.as_str(), " seconds.")
            },
            RateLimitMiddlewareError::Internal(m) => concat2("Internal error: ", m.as_str()),
        }
    }
}

/// What a rate limit is counted by.
#[derive(Debug, Clone, PartialEq, Eq)]
pub enum RateLimitKey {
    /// A client address, in the text it was given in.
    IpAddress(String),
    ApiKey(String),
    UserId(String),
    Custom(String),
}

/// The key that the key type `key_type` and the value `key_value` name:
/// `ip`, `api`, `user` and `custom` are the key types; an `ip` key needs a
/// value that reads as an IP address (`ip_valid`).
pub open spec fn key_for(key_type: Seq<char>, key_value: Seq<char>, ip_valid: bool) -> Result<
    (nat, Seq<char>),
    Seq<char>,
> {
    if key_type == "ip"@ {
        if ip_valid {
            Ok((0, key_value))
        } else {
            Err("Invalid IP address"@)
        }
    } else if key_type == "api"@ {
        Ok((1, key_value))
    } else if key_type == "user"@ {
        Ok((2, key_value))
    } else if key_type == "custom"@ {
        Ok((3, key_value))
    } else {
        Err("Invalid key type"@)
    }
}

/// The kind of a key, by number in the order of the variants, and its
/// value.
pub open spec fn key_view(k: RateLimitKey) -> (nat, Seq<char>) {
    match k {
        RateLimitKey::IpAddress(v) => (0, v@),
        RateLimitKey::ApiKey(v) => (1, v@),
        RateLimitKey::UserId(v) => (2, v@),
        RateLimitKey::Custom(v) => (3, v@),
    }
}

/// The key that a rate-limit request names (see `key_for`), or the reason
/// it names none. Whether the value reads as an IP address is decided by
/// the caller and given as `ip_valid`.
pub fn rate_limit_key(key_type: &str, key_value: &str, ip_valid: bool) -> (r: Result<RateLimitKey, String>)
    ensures
        match key_for(key_type@, key_value@, ip_valid) {
            Ok(k) => r matches Ok(key) && key_view(key) == k,
            Err(m) => r matches Err(e) && e@ == m,
        },
{
    if same_text(key_type, "ip") {
        if ip_valid {
            Ok(RateLimitKey::IpAddress(String::from_str(key_value)))
        } else {
            Err(String::from_str("Invalid IP address"))
        }
    } else if same_text(key_type, "api") {
        Ok(RateLimitKey::ApiKey(String::from_str(key_value)))
    } else if same_text(key_type, "user") {
        Ok(RateLimitKey::UserId(String::from_str(key_value)))
    } else if same_text(key_type, "custom") {
        Ok(RateLimitKey::Custom(String::from_str(key_value)))
    } else {
        Err(String::from_str("Invalid key type"))
    }
}

} // verus!
