//! Permission and role checks of authenticated callers.

use vstd::prelude::*;
use crate::api::error::{code_text, ApiError, ErrorCode};
use crate::errors::concat2;
use crate::text::{
    chars_of, has_prefix, split_char, split_on, starts_with, string_of, strip_all, strip_leading, trim_chars,
    trimmed,
};
use vstd::utf8::{decode_utf8, valid_utf8};

verus! {

/// Why an authenticated call was refused.
#[derive(Debug)]
pub enum AuthMiddlewareError {
    Unauthorized,
    Forbidden(String),
    AuthError(String),
    Internal(String),
}

/// The message of an authentication failure.
pub open spec fn auth_error_text(e: AuthMiddlewareError) -> Seq<char> {
    match e {
        AuthMiddlewareError::Unauthorized => "Unauthorized"@,
        AuthMiddlewareError::Forbidden(m) => "Forbidden: "@ + m@,
        AuthMiddlewareError::AuthError(m) => "Authentication error: "@ + m@,
        AuthMiddlewareError::Internal(m) => "Internal error: "@ + m@,
    }
}

impl AuthMiddlewareError {
    /// The message of this failure.
    pub fn to_string(&self) -> (s: String)
        ensures
            s@ == auth_error_text(*self),
    {
        match self {
            AuthMiddlewareError::Unauthorized => String::from_str("Unauthorized"),
            AuthMiddlewareError::Forbidden(m) => concat2("Forbidden: ", m.as_str()),
            AuthMiddlewareError::AuthError(m) => concat2("Authentication error: ", m.as_str()),
            AuthMiddlewareError::Internal(m) => concat2("Internal error: ", m.as_str()),
        }
    }
}

/// Who is calling, with what roles and permissions.
#[derive(Debug)]
pub struct AuthContext {
    pub user_id: String,
    pub username: String,
    pub roles: Vec<String>,
    pub permissions: Vec<String>,
}

/// Whether `v` holds a string equal to `s`.
pub open spec fn lists(v: Seq<String>, s: Seq<char>) -> bool {
    exists|i: int| 0 <= i < v.len() && (#[trigger] v[i])@ == s
}

fn list_contains(v: &Vec<String>, s: &str) -> (b: bool)
    ensures
        b == lists(v@, s@),
{
    let target = String::from_str(s);
    let mut i: usize = 0;
    while i < v.len()
        invariant
            i <= v.len(),
            target@ == s@,
            forall|j: int| 0 <= j < i ==> (#[trigger] v@[j])@ != s@,
        decreases v.len() - i,
    {
        if v[i].eq(&target) {
            return true;
        }
        i = i + 1;
    }
    false
}

/// The checks that guard commands.
pub struct AuthMiddleware {}

impl AuthMiddleware {
    /// A new middleware.
    pub fn new() -> (m: Self) {
        AuthMiddleware {}
    }

    /// Succeeds when the caller holds `permission`; otherwise the call is
    /// forbidden, naming the missing permission.
    pub fn check_permission(&self, auth_context: &AuthContext, permission: &str) -> (r: Result<(), AuthMiddlewareError>)
        ensures
            r is Ok <==> lists(auth_context.permissions@, permission@),
            r matches Err(e) ==> (e matches AuthMiddlewareError::Forbidden(m) && m@ == "Missing permission: "@
                + permission@),
    {
        if list_contains(&auth_context.permissions, permission) {
            Ok(())
        } else {
            Err(AuthMiddlewareError::Forbidden(concat2("Missing permission: ", permission)))
        }
    }

    /// Succeeds when the caller holds `role`; otherwise the call is
    /// forbidden, naming the missing role.
    pub fn check_role(&self, auth_context: &AuthContext, role: &str) -> (r: Result<(), AuthMiddlewareError>)
        ensures
            r is Ok <==> lists(auth_context.roles@, role@),
            r matches Err(e) ==> (e matches AuthMiddlewareError::Forbidden(m) && m@ == "Missing role: "@ + role@),
    {
        if list_contains(&auth_context.roles, role) {
            Ok(())
        } else {
            Err(AuthMiddlewareError::Forbidden(concat2("Missing role: ", role)))
        }
    }
}


/// What the standard base64 alphabet, with padding, decodes `s` to, if it
/// accepts it.
pub uninterp spec fn base64_decoded(s: Seq<char>) -> Option<Seq<u8>>;

/// `base64::engine::general_purpose::STANDARD.decode`: the bytes that the
/// standard alphabet with padding encodes as `s`, or nothing when `s` is
/// not such an encoding. The result is named `base64_decoded`.
#[verifier::external_body]
fn decode_base64(s: &str) -> (r: Option<Vec<u8>>)
    ensures
        match r {
            Some(b) => base64_decoded(s@) == Some(b@),
            None => base64_decoded(s@) is None,
        },
{
    base64::Engine::decode(&base64::engine::general_purpose::STANDARD, s).ok()
}

/// `String::from_utf8`: succeeds exactly on valid UTF-8, with the text the
/// bytes encode.
#[verifier::external_body]
fn utf8_string(bytes: Vec<u8>) -> (r: Option<String>)
    ensures
        match r {
            Some(s) => valid_utf8(bytes@) && s@ == decode_utf8(bytes@),
            None => !valid_utf8(bytes@),
        },
{
    String::from_utf8(bytes).ok()
}

/// Who a request claims to be.
#[derive(Debug)]
pub enum Credentials {
    /// A bearer token, taken as an API key.
    ApiKey(String),
    /// A user name and password.
    Basic { username: String, password: String },
}

/// Whether `e` refuses a request as unauthenticated, with message `m`.
pub open spec fn unauthorized(e: ApiError, m: Seq<char>) -> bool {
    &&& e.code@ == code_text(ErrorCode::Unauthorized)
    &&& e.message@ == m
    &&& e.details is None
}

/// The user name and password in the text of a basic credential: base64
/// of UTF-8 text holding exactly one colon.
pub open spec fn basic_pair(c: Seq<char>) -> Option<(Seq<char>, Seq<char>)> {
    match base64_decoded(c) {
        Some(b) => if valid_utf8(b) && split_char(decode_utf8(b), ':').len() == 2 {
            Some((split_char(decode_utf8(b), ':')[0], split_char(decode_utf8(b), ':')[1]))
        } else {
            None
        },
        None => None,
    }
}

/// Whether `r` is what an `Authorization` header `header` says: a bearer
/// token, a basic user name and password, or a refusal.
pub open spec fn reads_header(header: Option<Seq<char>>, r: Result<Credentials, ApiError>) -> bool {
    match header {
        None => r matches Err(e) && unauthorized(e, "Authentication required"@),
        Some(h) => if starts_with(h, "Bearer "@) {
            r matches Ok(Credentials::ApiKey(t)) && t@ == trimmed(strip_all(h, "Bearer "@))
        } else if starts_with(h, "Basic "@) {
            match basic_pair(trimmed(strip_all(h, "Basic "@))) {
                Some(pair) => r matches Ok(Credentials::Basic { username, password }) && username@ == pair.0
                    && password@ == pair.1,
                None => r matches Err(e) && unauthorized(e, "Invalid Basic authentication"@),
            }
        } else {
            r matches Err(e) && unauthorized(e, "Invalid authentication header"@)
        },
    }
}

fn refusal(m: &str) -> (e: ApiError)
    ensures
        unauthorized(e, m@),
{
    ApiError { code: String::from_str(ErrorCode::Unauthorized.as_str()), message: String::from_str(m), details: None }
}

fn credential_text(h: &[char], scheme: &str) -> (c: String)
    ensures
        c@ == trimmed(strip_all(h@, scheme@)),
{
    let p = chars_of(scheme);
    let rest = strip_leading(h, p.as_slice());
    let t = trim_chars(rest.as_slice());
    string_of(t.as_slice())
}

/// The credentials in an `Authorization` header (see `reads_header`).
pub fn parse_auth_header(header: &Option<String>) -> (r: Result<Credentials, ApiError>)
    ensures
        reads_header(
            match header {
                Some(h) => Some(h@),
                None => None,
            },
            r,
        ),
{
    match header {
        None => Err(refusal("Authentication required")),
        Some(h) => {
            let hc = chars_of(h.as_str());
            let bearer = chars_of("Bearer ");
            let basic = chars_of("Basic ");
            if has_prefix(hc.as_slice(), bearer.as_slice()) {
                Ok(Credentials::ApiKey(credential_text(hc.as_slice(), "Bearer ")))
            } else if has_prefix(hc.as_slice(), basic.as_slice()) {
                let c = credential_text(hc.as_slice(), "Basic ");
                match decode_base64(c.as_str()) {
                    None => Err(refusal("Invalid Basic authentication")),
                    Some(bytes) => match utf8_string(bytes) {
                        None => Err(refusal("Invalid Basic authentication")),
                        Some(text) => {
                            let tc = chars_of(text.as_str());
                            let parts = split_on(tc.as_slice(), ':');
                            assert(parts.deep_view().len() == parts@.len());
                            if parts.len() == 2 {
                                assert(parts.deep_view()[0] == parts@[0]@);
                                assert(parts.deep_view()[1] == parts@[1]@);
                                let username = string_of(parts[0].as_slice());
                                let password = string_of(parts[1].as_slice());
                                Ok(Credentials::Basic { username, password })
                            } else {
                                Err(refusal("Invalid Basic authentication"))
                            }
                        },
                    },
                }
            } else {
                Err(refusal("Invalid authentication header"))
            }
        },
    }
}

} // verus!
