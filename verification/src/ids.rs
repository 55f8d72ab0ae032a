//! Identifiers and clock readings.
//!
//! A UUID is held as its 128-bit value; an instant is held as the number of
//! microseconds since the Unix epoch.

use vstd::prelude::*;
use crate::errors::{DomainError, ValidationError};

verus! {

/// The lower-case hexadecimal digit for the `j`-th group of four bits of
/// `u`, counted from the most significant.
pub open spec fn uuid_hex_digit(u: u128, j: int) -> char {
    "0123456789abcdef"@[((u >> ((4 * (31 - j)) as u128)) & 0xfu128) as int]
}

/// The hyphenated text of the UUID with value `u`: its 32 lower-case
/// hexadecimal digits, most significant first, in groups of 8, 4, 4, 4 and
/// 12 joined by `-`.
pub open spec fn uuid_text(u: u128) -> Seq<char> {
    Seq::new(
        36,
        |i: int|
            if i == 8 || i == 13 || i == 18 || i == 23 {
                '-'
            } else if i < 8 {
                uuid_hex_digit(u, i)
            } else if i < 13 {
                uuid_hex_digit(u, i - 1)
            } else if i < 18 {
                uuid_hex_digit(u, i - 2)
            } else if i < 23 {
                uuid_hex_digit(u, i - 3)
            } else {
                uuid_hex_digit(u, i - 4)
            },
    )
}

/// The value that `uuid::Uuid::parse_str` reads from `s`, if it accepts it.
pub uninterp spec fn uuid_parse(s: Seq<char>) -> Option<u128>;

/// Whether `u` is a random (version 4) UUID of the RFC 9562 variant: its
/// version field (bits 76 to 79) holds 4 and its variant field (bits 62
/// and 63) holds the bits `10`.
pub open spec fn is_random_uuid(u: u128) -> bool {
    (u >> 76u128) & 0xfu128 == 4u128 && (u >> 62u128) & 0x3u128 == 2u128
}

/// `uuid::Uuid::new_v4`: a fresh random UUID. Its other 122 bits come from
/// the operating system's random source, so nothing is claimed of them;
/// the crate sets the version and variant fields (see `is_random_uuid`).
#[verifier::external_body]
pub(crate) fn new_uuid() -> (u: u128)
    ensures
        is_random_uuid(u),
{
    uuid::Uuid::new_v4().as_u128()
}

/// `uuid::Uuid::parse_str`: reads a UUID in any of the textual forms the
/// crate accepts. The result is named `uuid_parse`.
#[verifier::external_body]
pub(crate) fn parse_uuid(s: &str) -> (r: Option<u128>)
    ensures
        r == uuid_parse(s@),
{
    match uuid::Uuid::parse_str(s) {
        Ok(u) => Some(u.as_u128()),
        Err(_) => None,
    }
}

/// `Display` of `uuid::Uuid`: the hyphenated lower-case form (see
/// `uuid_text`), which the crate's `parse_str` reads back.
#[verifier::external_body]
pub(crate) fn uuid_to_string(u: u128) -> (s: String)
    ensures
        s@ == uuid_text(u),
        uuid_parse(s@) == Some(u),
{
    uuid::Uuid::from_u128(u).to_string()
}

/// `chrono::Utc::now`, in microseconds since the Unix epoch. Nothing is
/// claimed of the value: it is the machine's clock.
#[verifier::external_body]
pub(crate) fn now_micros() -> (t: i64) {
    chrono::Utc::now().timestamp_micros()
}


/// Whether `e` is the error for text that is not a UUID, reported for the
/// identifier kind `field`.
pub open spec fn is_uuid_format_error(e: DomainError, field: Seq<char>) -> bool {
    e matches DomainError::Validation(ValidationError::InvalidFormat { field: f, reason: r }) && f@ == field && r@
        == "Invalid UUID format"@
}

/// An identifier of its own kind, held as a UUID value.
#[derive(Debug, Clone, Copy, PartialEq, Eq, Structural, Hash)]
pub struct ConversationId(u128);

impl View for ConversationId {
    type V = u128;

    /// The UUID value.
    closed spec fn view(&self) -> u128 {
        self.0
    }
}

impl ConversationId {
    /// A fresh random identifier: a version 4 UUID.
    pub fn new() -> (id: Self)
        ensures
            is_random_uuid(id@),
    {
        ConversationId(new_uuid())
    }

    /// The identifier with the UUID value `uuid`.
    pub fn from_uuid(uuid: u128) -> (id: Self)
        ensures
            id@ == uuid,
    {
        ConversationId(uuid)
    }

    /// The UUID value.
    pub fn as_uuid(&self) -> (u: &u128)
        ensures
            *u == self@,
    {
        &self.0
    }

    /// The UUID value.
    pub fn into_uuid(self) -> (u: u128)
        ensures
            u == self@,
    {
        self.0
    }

    /// Reads an identifier from any textual form of a UUID.
    pub fn parse_str(input: &str) -> (r: Result<Self, DomainError>)
        ensures
            match uuid_parse(input@) {
                Some(u) => r matches Ok(id) && id@ == u,
                None => r matches Err(e) && is_uuid_format_error(e, "ConversationId"@),
            },
    {
        match parse_uuid(input) {
            Some(u) => Ok(ConversationId(u)),
            None => Err(DomainError::Validation(ValidationError::InvalidFormat {
                field: String::from_str("ConversationId"),
                reason: String::from_str("Invalid UUID format"),
            })),
        }
    }

    /// The hyphenated lower-case text of the UUID, which `parse_str` reads
    /// back to this identifier.
    pub fn to_string(&self) -> (s: String)
        ensures
            s@ == uuid_text(self@),
            uuid_parse(s@) == Some(self@),
    {
        uuid_to_string(self.0)
    }
}

impl Default for ConversationId {
    /// A fresh random identifier.
    fn default() -> (id: Self) {
        ConversationId::new()
    }
}

/// An identifier of its own kind, held as a UUID value.
#[derive(Debug, Clone, Copy, PartialEq, Eq, Structural, Hash)]
pub struct MessageId(u128);

impl View for MessageId {
    type V = u128;

    /// The UUID value.
    closed spec fn view(&self) -> u128 {
        self.0
    }
}

impl MessageId {
    /// A fresh random identifier: a version 4 UUID.
    pub fn new() -> (id: Self)
        ensures
            is_random_uuid(id@),
    {
        MessageId(new_uuid())
    }

    /// The identifier with the UUID value `uuid`.
    pub fn from_uuid(uuid: u128) -> (id: Self)
        ensures
            id@ == uuid,
    {
        MessageId(uuid)
    }

    /// The UUID value.
    pub fn as_uuid(&self) -> (u: &u128)
        ensures
            *u == self@,
    {
        &self.0
    }

    /// The UUID value.
    pub fn into_uuid(self) -> (u: u128)
        ensures
            u == self@,
    {
        self.0
    }

    /// Reads an identifier from any textual form of a UUID.
    pub fn parse_str(input: &str) -> (r: Result<Self, DomainError>)
        ensures
            match uuid_parse(input@) {
                Some(u) => r matches Ok(id) && id@ == u,
                None => r matches Err(e) && is_uuid_format_error(e, "MessageId"@),
            },
    {
        match parse_uuid(input) {
            Some(u) => Ok(MessageId(u)),
            None => Err(DomainError::Validation(ValidationError::InvalidFormat {
                field: String::from_str("MessageId"),
                reason: String::from_str("Invalid UUID format"),
            })),
        }
    }

    /// The hyphenated lower-case text of the UUID, which `parse_str` reads
    /// back to this identifier.
    pub fn to_string(&self) -> (s: String)
        ensures
            s@ == uuid_text(self@),
            uuid_parse(s@) == Some(self@),
    {
        uuid_to_string(self.0)
    }
}

impl Default for MessageId {
    /// A fresh random identifier.
    fn default() -> (id: Self) {
        MessageId::new()
    }
}

/// An identifier of its own kind, held as a UUID value.
#[derive(Debug, Clone, Copy, PartialEq, Eq, Structural, Hash)]
pub struct AgentId(u128);

impl View for AgentId {
    type V = u128;

    /// The UUID value.
    closed spec fn view(&self) -> u128 {
        self.0
    }
}

impl AgentId {
    /// A fresh random identifier: a version 4 UUID.
    pub fn new() -> (id: Self)
        ensures
            is_random_uuid(id@),
    {
        AgentId(new_uuid())
    }

    /// The identifier with the UUID value `uuid`.
    pub fn from_uuid(uuid: u128) -> (id: Self)
        ensures
            id@ == uuid,
    {
        AgentId(uuid)
    }

    /// The UUID value.
    pub fn as_uuid(&self) -> (u: &u128)
        ensures
            *u == self@,
    {
        &self.0
    }

    /// The UUID value.
    pub fn into_uuid(self) -> (u: u128)
        ensures
            u == self@,
    {
        self.0
    }

    /// Reads an identifier from any textual form of a UUID.
    pub fn parse_str(input: &str) -> (r: Result<Self, DomainError>)
        ensures
            match uuid_parse(input@) {
                Some(u) => r matches Ok(id) && id@ == u,
                None => r matches Err(e) && is_uuid_format_error(e, "AgentId"@),
            },
    {
        match parse_uuid(input) {
            Some(u) => Ok(AgentId(u)),
            None => Err(DomainError::Validation(ValidationError::InvalidFormat {
                field: String::from_str("AgentId"),
                reason: String::from_str("Invalid UUID format"),
            })),
        }
    }

    /// The hyphenated lower-case text of the UUID, which `parse_str` reads
    /// back to this identifier.
    pub fn to_string(&self) -> (s: String)
        ensures
            s@ == uuid_text(self@),
            uuid_parse(s@) == Some(self@),
    {
        uuid_to_string(self.0)
    }
}

impl Default for AgentId {
    /// A fresh random identifier.
    fn default() -> (id: Self) {
        AgentId::new()
    }
}

/// An identifier of its own kind, held as a UUID value.
#[derive(Debug, Clone, Copy, PartialEq, Eq, Structural, Hash)]
pub struct TwinId(u128);

impl View for TwinId {
    type V = u128;

    /// The UUID value.
    closed spec fn view(&self) -> u128 {
        self.0
    }
}

impl TwinId {
    /// A fresh random identifier: a version 4 UUID.
    pub fn new() -> (id: Self)
        ensures
            is_random_uuid(id@),
    {
        TwinId(new_uuid())
    }

    /// The identifier with the UUID value `uuid`.
    pub fn from_uuid(uuid: u128) -> (id: Self)
        ensures
            id@ == uuid,
    {
        TwinId(uuid)
    }

    /// The UUID value.
    pub fn as_uuid(&self) -> (u: &u128)
        ensures
            *u == self@,
    {
        &self.0
    }

    /// The UUID value.
    pub fn into_uuid(self) -> (u: u128)
        ensures
            u == self@,
    {
        self.0
    }

    /// Reads an identifier from any textual form of a UUID.
    pub fn parse_str(input: &str) -> (r: Result<Self, DomainError>)
        ensures
            match uuid_parse(input@) {
                Some(u) => r matches Ok(id) && id@ == u,
                None => r matches Err(e) && is_uuid_format_error(e, "TwinId"@),
            },
    {
        match parse_uuid(input) {
            Some(u) => Ok(TwinId(u)),
            None => Err(DomainError::Validation(ValidationError::InvalidFormat {
                field: String::from_str("TwinId"),
                reason: String::from_str("Invalid UUID format"),
            })),
        }
    }

    /// The hyphenated lower-case text of the UUID, which `parse_str` reads
    /// back to this identifier.
    pub fn to_string(&self) -> (s: String)
        ensures
            s@ == uuid_text(self@),
            uuid_parse(s@) == Some(self@),
    {
        uuid_to_string(self.0)
    }
}

impl Default for TwinId {
    /// A fresh random identifier.
    fn default() -> (id: Self) {
        TwinId::new()
    }
}

/// An identifier of its own kind, held as a UUID value.
#[derive(Debug, Clone, Copy, PartialEq, Eq, Structural, Hash)]
pub struct SensorDataId(u128);

impl View for SensorDataId {
    type V = u128;

    /// The UUID value.
    closed spec fn view(&self) -> u128 {
        self.0
    }
}

impl SensorDataId {
    /// A fresh random identifier: a version 4 UUID.
    pub fn new() -> (id: Self)
        ensures
            is_random_uuid(id@),
    {
        SensorDataId(new_uuid())
    }

    /// The identifier with the UUID value `uuid`.
    pub fn from_uuid(uuid: u128) -> (id: Self)
        ensures
            id@ == uuid,
    {
        SensorDataId(uuid)
    }

    /// The UUID value.
    pub fn as_uuid(&self) -> (u: &u128)
        ensures
            *u == self@,
    {
        &self.0
    }

    /// The UUID value.
    pub fn into_uuid(self) -> (u: u128)
        ensures
            u == self@,
    {
        self.0
    }

    /// Reads an identifier from any textual form of a UUID.
    pub fn parse_str(input: &str) -> (r: Result<Self, DomainError>)
        ensures
            match uuid_parse(input@) {
                Some(u) => r matches Ok(id) && id@ == u,
                None => r matches Err(e) && is_uuid_format_error(e, "SensorDataId"@),
            },
    {
        match parse_uuid(input) {
            Some(u) => Ok(SensorDataId(u)),
            None => Err(DomainError::Validation(ValidationError::InvalidFormat {
                field: String::from_str("SensorDataId"),
                reason: String::from_str("Invalid UUID format"),
            })),
        }
    }

    /// The hyphenated lower-case text of the UUID, which `parse_str` reads
    /// back to this identifier.
    pub fn to_string(&self) -> (s: String)
        ensures
            s@ == uuid_text(self@),
            uuid_parse(s@) == Some(self@),
    {
        uuid_to_string(self.0)
    }
}

impl Default for SensorDataId {
    /// A fresh random identifier.
    fn default() -> (id: Self) {
        SensorDataId::new()
    }
}

/// An identifier of its own kind, held as a UUID value.
#[derive(Debug, Clone, Copy, PartialEq, Eq, Structural, Hash)]
pub struct ToolId(u128);

impl View for ToolId {
    type V = u128;

    /// The UUID value.
    closed spec fn view(&self) -> u128 {
        self.0
    }
}

impl ToolId {
    /// A fresh random identifier: a version 4 UUID.
    pub fn new() -> (id: Self)
        ensures
            is_random_uuid(id@),
    {
        ToolId(new_uuid())
    }

    /// The identifier with the UUID value `uuid`.
    pub fn from_uuid(uuid: u128) -> (id: Self)
        ensures
            id@ == uuid,
    {
        ToolId(uuid)
    }

    /// The UUID value.
    pub fn as_uuid(&self) -> (u: &u128)
        ensures
            *u == self@,
    {
        &self.0
    }

    /// The UUID value.
    pub fn into_uuid(self) -> (u: u128)
        ensures
            u == self@,
    {
        self.0
    }

    /// Reads an identifier from any textual form of a UUID.
    pub fn parse_str(input: &str) -> (r: Result<Self, DomainError>)
        ensures
            match uuid_parse(input@) {
                Some(u) => r matches Ok(id) && id@ == u,
                None => r matches Err(e) && is_uuid_format_error(e, "ToolId"@),
            },
    {
        match parse_uuid(input) {
            Some(u) => Ok(ToolId(u)),
            None => Err(DomainError::Validation(ValidationError::InvalidFormat {
                field: String::from_str("ToolId"),
                reason: String::from_str("Invalid UUID format"),
            })),
        }
    }

    /// The hyphenated lower-case text of the UUID, which `parse_str` reads
    /// back to this identifier.
    pub fn to_string(&self) -> (s: String)
        ensures
            s@ == uuid_text(self@),
            uuid_parse(s@) == Some(self@),
    {
        uuid_to_string(self.0)
    }
}

impl Default for ToolId {
    /// A fresh random identifier.
    fn default() -> (id: Self) {
        ToolId::new()
    }
}

/// An identifier of its own kind, held as a UUID value.
#[derive(Debug, Clone, Copy, PartialEq, Eq, Structural, Hash)]
pub struct ExecutionId(u128);

impl View for ExecutionId {
    type V = u128;

    /// The UUID value.
    closed spec fn view(&self) -> u128 {
        self.0
    }
}

impl ExecutionId {
    /// A fresh random identifier: a version 4 UUID.
    pub fn new() -> (id: Self)
        ensures
            is_random_uuid(id@),
    {
        ExecutionId(new_uuid())
    }

    /// The identifier with the UUID value `uuid`.
    pub fn from_uuid(uuid: u128) -> (id: Self)
        ensures
            id@ == uuid,
    {
        ExecutionId(uuid)
    }

    /// The UUID value.
    pub fn as_uuid(&self) -> (u: &u128)
        ensures
            *u == self@,
    {
        &self.0
    }

    /// The UUID value.
    pub fn into_uuid(self) -> (u: u128)
        ensures
            u == self@,
    {
        self.0
    }

    /// Reads an identifier from any textual form of a UUID.
    pub fn parse_str(input: &str) -> (r: Result<Self, DomainError>)
        ensures
            match uuid_parse(input@) {
                Some(u) => r matches Ok(id) && id@ == u,
                None => r matches Err(e) && is_uuid_format_error(e, "ExecutionId"@),
            },
    {
        match parse_uuid(input) {
            Some(u) => Ok(ExecutionId(u)),
            None => Err(DomainError::Validation(ValidationError::InvalidFormat {
                field: String::from_str("ExecutionId"),
                reason: String::from_str("Invalid UUID format"),
            })),
        }
    }

    /// The hyphenated lower-case text of the UUID, which `parse_str` reads
    /// back to this identifier.
    pub fn to_string(&self) -> (s: String)
        ensures
            s@ == uuid_text(self@),
            uuid_parse(s@) == Some(self@),
    {
        uuid_to_string(self.0)
    }
}

impl Default for ExecutionId {
    /// A fresh random identifier.
    fn default() -> (id: Self) {
        ExecutionId::new()
    }
}

} // verus!
