//! Domain errors: what failed and why, with the messages shown to users.

use vstd::prelude::*;
use crate::models::agent::AgentState;
use crate::models::conversation::ConversationState;
use crate::models::digital_twin::TwinState;
use crate::models::sensor_data::SensorStatus;
use crate::models::tool::{ExecutionStatus, ToolStatus};
use crate::text::{signed_decimal, decimal, u64_to_string, i64_to_string};

verus! {

/// An entity that could not be found.
#[derive(Debug)]
pub enum NotFoundError {
    Agent(u128),
    Conversation(u128),
    Message(u128),
    DigitalTwin(u128),
    SensorData(u128),
    Tool(u128),
    ToolExecution(u128),
    Generic { entity_type: String, identifier: String },
}

/// Input that failed validation.
#[derive(Debug)]
pub enum ValidationError {
    EmptyField { field: String },
    InvalidLength { field: String, min: usize, max: usize, actual: usize },
    InvalidFormat { field: String, reason: String },
    OutOfRange { field: String, min: String, max: String, actual: String },
    InvalidUrl { field: String, url: String },
    InvalidEmail { field: String, email: String },
    PatternMismatch { field: String, pattern: String },
    MissingRequired { field: String },
    InvalidEnumValue { field: String, value: String, valid_values: Vec<String> },
    DuplicateValue { field: String, value: String },
    InvalidReference { field: String },
    Multiple(Vec<ValidationError>),
}

/// A state change that is not allowed.
#[derive(Debug)]
pub enum StateTransitionError {
    InvalidAgentTransition { from: AgentState, to: AgentState },
    InvalidTwinTransition { from: TwinState, to: TwinState },
    InvalidConversationTransition { from: ConversationState, to: ConversationState },
    InvalidSensorTransition { from: SensorStatus, to: SensorStatus },
    InvalidToolTransition { from: ToolStatus, to: ToolStatus },
    InvalidExecutionTransition { from: ExecutionStatus, to: ExecutionStatus },
    PreconditionNotMet { reason: String },
}

/// A refused authorization.
#[derive(Debug)]
pub enum AuthorizationError {
    InsufficientPermissions { required: Vec<String>, actual: Vec<String> },
    AccessDenied { entity_type: String, entity_id: String },
    OperationNotAllowed { operation: String, user: String },
    InvalidCredentials,
    TokenExpired,
    RateLimitExceeded { limit: u32, period: String },
}

/// A violated business rule (the sensor-bounds rule, which carries
/// floating-point readings, is reported by the application layer).
#[derive(Debug)]
pub enum BusinessRuleError {
    AgentCapacityExceeded { agent_id: u128, max: u32 },
    ConversationParticipantLimit { max: u32 },
    ToolExecutionLimitReached { tool_id: u128, limit: u32, period: String },
    TwinSyncIntervalTooShort { requested: u32, minimum: u32 },
    MessageSizeExceeded { size: usize, limit: usize },
    CircularDependency { context: String },
    InvalidToolChain { reason: String },
    RetentionPolicyViolation { days: u32 },
    Custom { rule: String, message: String },
}

/// An exhausted resource (the CPU-usage limit, which carries floating-point
/// percentages, is reported by the application layer).
#[derive(Debug)]
pub enum ResourceConstraintError {
    MemoryLimitExceeded { requested: u64, available: u64 },
    StorageLimitExceeded { used: u64, limit: u64 },
    ConnectionPoolExhausted { size: u32 },
    QueueFull { queue: String, size: u32, capacity: u32 },
    TokenLimitExceeded { used: u32, limit: u32 },
    BandwidthLimitExceeded { used: u64, limit: u64 },
}

/// A conflict with existing data.
#[derive(Debug)]
pub enum ConflictError {
    ConcurrentModification { entity_type: String, entity_id: String },
    VersionMismatch { expected: String, actual: String },
    DuplicateEntity { entity_type: String, identifier: String },
    ResourceLocked { resource_type: String, resource_id: String },
    StateConflict { message: String },
}

/// Any domain error.
#[derive(Debug)]
pub enum DomainError {
    NotFound(NotFoundError),
    Validation(ValidationError),
    StateTransition(StateTransitionError),
    Authorization(AuthorizationError),
    BusinessRule(BusinessRuleError),
    ResourceConstraint(ResourceConstraintError),
    Conflict(ConflictError),
    Timeout { duration_ms: u64 },
    ExternalService { service: String, message: String },
    DataIntegrity(String),
    Configuration(String),
    Other(String),
}

/// The text that `{:?}` gives for the string `s`: quoted, with special
/// characters escaped.
pub uninterp spec fn debug_str(s: Seq<char>) -> Seq<char>;

/// `Debug` of `str` (quoted and escaped). The result is named `debug_str`.
#[verifier::external_body]
fn str_debug_text(s: &str) -> (r: String)
    ensures
        r@ == debug_str(s@),
{
    format!("{:?}", s)
}

/// The pieces joined by `", "`.
pub open spec fn joined(items: Seq<Seq<char>>) -> Seq<char>
    decreases items.len(),
{
    if items.len() == 0 {
        Seq::empty()
    } else if items.len() == 1 {
        items[0]
    } else {
        joined(items.drop_last()) + ", "@ + items.last()
    }
}

/// The text that `{:?}` gives for a list of strings: their quoted forms,
/// separated by `", "`, in brackets.
pub open spec fn debug_strings(v: Seq<Seq<char>>) -> Seq<char> {
    "["@ + joined(v.map_values(|x: Seq<char>| debug_str(x))) + "]"@
}

/// `{:?}` of a list of strings (see `debug_strings`).
pub(crate) fn strings_debug_text(v: &Vec<String>) -> (s: String)
    ensures
        s@ == debug_strings(v.deep_view()),
{
    let ghost items = v.deep_view().map_values(|x: Seq<char>| debug_str(x));
    let mut s = String::from_str("[");
    let mut i: usize = 0;
    while i < v.len()
        invariant
            i <= v@.len(),
            items == v.deep_view().map_values(|x: Seq<char>| debug_str(x)),
            s@ == "["@ + joined(items.take(i as int)),
        decreases v@.len() - i,
    {
        assert(items.take(i + 1).drop_last() =~= items.take(i as int));
        assert(v.deep_view()[i as int] == v@[i as int]@);
        if i > 0 {
            s.append(", ");
        } else {
            assert(items.take(0) =~= Seq::<Seq<char>>::empty());
        }
        let d = str_debug_text(v[i].as_str());
        s.append(d.as_str());
        assert(s@ =~= "["@ + joined(items.take(i + 1)));
        i = i + 1;
    }
    assert(items.take(v@.len() as int) =~= items);
    s.append("]");
    s
}

/// The text that the derived `Debug` gives for a validation error.
pub open spec fn validation_debug(e: ValidationError) -> Seq<char>
    decreases e,
{
    match e {
        ValidationError::EmptyField { field } => "EmptyField { field: "@ + debug_str(field@) + " }"@,
        ValidationError::InvalidLength { field, min, max, actual } => "InvalidLength { field: "@ + debug_str(field@)
            + ", min: "@ + decimal(min as nat) + ", max: "@ + decimal(max as nat) + ", actual: "@ + decimal(
            actual as nat,
        ) + " }"@,
        ValidationError::InvalidFormat { field, reason } => two_field_debug("InvalidFormat"@, field@, ", reason: "@, reason@),
        ValidationError::OutOfRange { field, min, max, actual } => "OutOfRange { field: "@ + debug_str(field@)
            + ", min: "@ + debug_str(min@) + ", max: "@ + debug_str(max@) + ", actual: "@ + debug_str(actual@)
            + " }"@,
        ValidationError::InvalidUrl { field, url } => two_field_debug("InvalidUrl"@, field@, ", url: "@, url@),
        ValidationError::InvalidEmail { field, email } => two_field_debug("InvalidEmail"@, field@, ", email: "@, email@),
        ValidationError::PatternMismatch { field, pattern } => two_field_debug(
            "PatternMismatch"@,
            field@,
            ", pattern: "@,
            pattern@,
        ),
        ValidationError::MissingRequired { field } => "MissingRequired { field: "@ + debug_str(field@) + " }"@,
        ValidationError::InvalidEnumValue { field, value, valid_values } => "InvalidEnumValue { field: "@
            + debug_str(field@) + ", value: "@ + debug_str(value@) + ", valid_values: "@ + debug_strings(
            valid_values.deep_view(),
        ) + " }"@,
        ValidationError::DuplicateValue { field, value } => two_field_debug("DuplicateValue"@, field@, ", value: "@, value@),
        ValidationError::InvalidReference { field } => "InvalidReference { field: "@ + debug_str(field@) + " }"@,
        ValidationError::Multiple(errors) => "Multiple("@ + ("["@ + debug_error_items(errors@) + "]"@) + ")"@,
    }
}

/// The `Debug` text of a struct variant with two string fields.
pub open spec fn two_field_debug(name: Seq<char>, field: Seq<char>, label: Seq<char>, value: Seq<char>) -> Seq<char> {
    name + " { field: "@ + debug_str(field) + label + debug_str(value) + " }"@
}

/// The text that `{:?}` gives for a list of validation errors.
pub open spec fn debug_errors(v: Seq<ValidationError>) -> Seq<char> {
    "["@ + debug_error_items(v) + "]"@
}

/// The `Debug` texts of the errors, separated by `", "`.
pub open spec fn debug_error_items(v: Seq<ValidationError>) -> Seq<char>
    decreases v,
{
    if v.len() == 0 {
        Seq::empty()
    } else if v.len() == 1 {
        validation_debug(v[0])
    } else {
        debug_error_items(v.drop_last()) + ", "@ + validation_debug(v.last())
    }
}

/// `Debug` of a list of validation errors (see `debug_errors`).
fn errors_debug_text(v: &Vec<ValidationError>) -> (s: String)
    ensures
        s@ == debug_errors(v@),
    decreases v@,
{
    let mut s = String::from_str("[");
    let mut i: usize = 0;
    while i < v.len()
        invariant
            i <= v@.len(),
            s@ == "["@ + debug_error_items(v@.take(i as int)),
        decreases v@.len() - i,
    {
        assert(v@.take(i + 1).drop_last() =~= v@.take(i as int));
        if i > 0 {
            s.append(", ");
        }
        proof {
            assert(decreases_to!(v@ => v@[i as int]));
        }
        let d = validation_debug_text(&v[i]);
        s.append(d.as_str());
        assert(s@ =~= "["@ + debug_error_items(v@.take(i + 1)));
        i = i + 1;
    }
    assert(v@.take(v@.len() as int) =~= v@);
    s.append("]");
    s
}

/// `Debug` of a validation error (see `validation_debug`).
fn validation_debug_text(e: &ValidationError) -> (s: String)
    ensures
        s@ == validation_debug(*e),
    decreases e,
{
    match e {
        ValidationError::EmptyField { field } => {
            let f = str_debug_text(field.as_str());
            concat3("EmptyField { field: ", f.as_str(), " }")
        },
        ValidationError::InvalidLength { field, min, max, actual } => {
            let f = str_debug_text(field.as_str());
            let mut s = concat3("InvalidLength { field: ", f.as_str(), ", min: ");
            s.append(u64_to_string(*min as u64).as_str());
            s.append(", max: ");
            s.append(u64_to_string(*max as u64).as_str());
            s.append(", actual: ");
            s.append(u64_to_string(*actual as u64).as_str());
            s.append(" }");
            s
        },
        ValidationError::InvalidFormat { field, reason } => two_fields("InvalidFormat", field, ", reason: ", reason),
        ValidationError::OutOfRange { field, min, max, actual } => {
            let mut s = concat3("OutOfRange { field: ", str_debug_text(field.as_str()).as_str(), ", min: ");
            s.append(str_debug_text(min.as_str()).as_str());
            s.append(", max: ");
            s.append(str_debug_text(max.as_str()).as_str());
            s.append(", actual: ");
            s.append(str_debug_text(actual.as_str()).as_str());
            s.append(" }");
            s
        },
        ValidationError::InvalidUrl { field, url } => two_fields("InvalidUrl", field, ", url: ", url),
        ValidationError::InvalidEmail { field, email } => two_fields("InvalidEmail", field, ", email: ", email),
        ValidationError::PatternMismatch { field, pattern } => two_fields(
            "PatternMismatch",
            field,
            ", pattern: ",
            pattern,
        ),
        ValidationError::MissingRequired { field } => {
            let f = str_debug_text(field.as_str());
            concat3("MissingRequired { field: ", f.as_str(), " }")
        },
        ValidationError::InvalidEnumValue { field, value, valid_values } => {
            let mut s = concat3("InvalidEnumValue { field: ", str_debug_text(field.as_str()).as_str(), ", value: ");
            s.append(str_debug_text(value.as_str()).as_str());
            s.append(", valid_values: ");
            s.append(strings_debug_text(valid_values).as_str());
            s.append(" }");
            s
        },
        ValidationError::DuplicateValue { field, value } => two_fields("DuplicateValue", field, ", value: ", value),
        ValidationError::InvalidReference { field } => {
            let f = str_debug_text(field.as_str());
            concat3("InvalidReference { field: ", f.as_str(), " }")
        },
        ValidationError::Multiple(errors) => {
            let t = errors_debug_text(errors);
            concat3("Multiple(", t.as_str(), ")")
        },
    }
}

/// `Name { field: "..", <label>".." }`.
fn two_fields(name: &str, field: &String, label: &str, value: &String) -> (s: String)
    ensures
        s@ == two_field_debug(name@, field@, label@, value@),
{
    let mut s = String::from_str(name);
    s.append(" { field: ");
    s.append(str_debug_text(field.as_str()).as_str());
    s.append(label);
    s.append(str_debug_text(value.as_str()).as_str());
    s.append(" }");
    s
}

/// The message of a validation error.
pub open spec fn validation_message(e: ValidationError) -> Seq<char> {
    match e {
        ValidationError::EmptyField { field } => "Field '"@ + field@ + "' cannot be empty"@,
        ValidationError::InvalidLength { field, min, max, actual } => "Field '"@ + field@ + "' must be between "@
            + decimal(min as nat) + " and "@ + decimal(max as nat) + " characters, got "@ + decimal(actual as nat),
        ValidationError::InvalidFormat { field, reason } => "Field '"@ + field@ + "' has invalid format: "@ + reason@,
        ValidationError::OutOfRange { field, min, max, actual } => "Field '"@ + field@ + "' must be between "@ + min@
            + " and "@ + max@ + ", got "@ + actual@,
        ValidationError::InvalidUrl { field, url } => "Invalid URL in field '"@ + field@ + "': "@ + url@,
        ValidationError::InvalidEmail { field, email } => "Invalid email in field '"@ + field@ + "': "@ + email@,
        ValidationError::PatternMismatch { field, pattern } => "Field '"@ + field@
            + "' does not match required pattern: "@ + pattern@,
        ValidationError::MissingRequired { field } => "Required field '"@ + field@ + "' is missing"@,
        ValidationError::InvalidEnumValue { field, value, valid_values } => "Invalid value '"@ + value@
            + "' for field '"@ + field@ + "'. Valid values are: "@ + debug_strings(valid_values.deep_view()),
        ValidationError::DuplicateValue { field, value } => "Duplicate value '"@ + value@ + "' for unique field '"@
            + field@ + "'"@,
        ValidationError::InvalidReference { field } => "Invalid reference in field '"@ + field@
            + "': referenced entity does not exist"@,
        ValidationError::Multiple(errors) => "Multiple validation errors: "@ + debug_errors(errors@),
    }
}

/// A string made of `a` followed by `b`.
pub fn concat2(a: &str, b: &str) -> (s: String)
    ensures
        s@ == a@ + b@,
{
    let mut s = String::from_str(a);
    s.append(b);
    s
}

/// A string made of the given pieces in order.
pub fn concat3(a: &str, b: &str, c: &str) -> (s: String)
    ensures
        s@ == a@ + b@ + c@,
{
    let mut s = String::from_str(a);
    s.append(b);
    s.append(c);
    s
}

impl ValidationError {
    /// An empty-field error for `field`.
    pub fn empty_field(field: &str) -> (e: Self)
        ensures
            e matches ValidationError::EmptyField { field: f } && f@ == field@,
    {
        ValidationError::EmptyField { field: String::from_str(field) }
    }

    /// An invalid-length error for `field`.
    pub fn invalid_length(field: &str, min: usize, max: usize, actual: usize) -> (e: Self)
        ensures
            e matches ValidationError::InvalidLength { field: f, min: a, max: b, actual: c } && f@ == field@ && a
                == min && b == max && c == actual,
    {
        ValidationError::InvalidLength { field: String::from_str(field), min, max, actual }
    }

    /// An out-of-range error for `field`, with the bounds and the value
    /// written in decimal.
    pub fn out_of_range(field: &str, min: i64, max: i64, actual: i64) -> (e: Self)
        ensures
            e matches ValidationError::OutOfRange { field: f, min: a, max: b, actual: c } && f@ == field@ && a@
                == signed_decimal(min as int) && b@ == signed_decimal(max as int) && c@ == signed_decimal(actual as int),
    {
        ValidationError::OutOfRange {
            field: String::from_str(field),
            min: i64_to_string(min),
            max: i64_to_string(max),
            actual: i64_to_string(actual),
        }
    }

    /// One error standing for all of `errors`: the error itself when there
    /// is one, a `Multiple` error otherwise.
    pub fn combine(errors: Vec<ValidationError>) -> (e: Self)
        requires
            errors@.len() > 0,
        ensures
            errors@.len() == 1 ==> e == errors@[0],
            errors@.len() > 1 ==> e == ValidationError::Multiple(errors),
    {
        if errors.len() == 1 {
            let mut errors = errors;
            errors.pop().unwrap()
        } else {
            ValidationError::Multiple(errors)
        }
    }

    /// The message of this error.
    pub fn to_string(&self) -> (s: String)
        ensures
            s@ == validation_message(*self),
    {
        match self {
            ValidationError::EmptyField { field } => concat3("Field '", field.as_str(), "' cannot be empty"),
            ValidationError::InvalidLength { field, min, max, actual } => {
                let mut s = concat3("Field '", field.as_str(), "' must be between ");
                s.append(u64_to_string(*min as u64).as_str());
                s.append(" and ");
                s.append(u64_to_string(*max as u64).as_str());
                s.append(" characters, got ");
                s.append(u64_to_string(*actual as u64).as_str());
                s
            },
            ValidationError::InvalidFormat { field, reason } => {
                let mut s = concat3("Field '", field.as_str(), "' has invalid format: ");
                s.append(reason.as_str());
                s
            },
            ValidationError::OutOfRange { field, min, max, actual } => {
                let mut s = concat3("Field '", field.as_str(), "' must be between ");
                s.append(min.as_str());
                s.append(" and ");
                s.append(max.as_str());
                s.append(", got ");
                s.append(actual.as_str());
                s
            },
            ValidationError::InvalidUrl { field, url } => {
                let mut s = concat3("Invalid URL in field '", field.as_str(), "': ");
                s.append(url.as_str());
                s
            },
            ValidationError::InvalidEmail { field, email } => {
                let mut s = concat3("Invalid email in field '", field.as_str(), "': ");
                s.append(email.as_str());
                s
            },
            ValidationError::PatternMismatch { field, pattern } => {
                let mut s = concat3("Field '", field.as_str(), "' does not match required pattern: ");
                s.append(pattern.as_str());
                s
            },
            ValidationError::MissingRequired { field } => concat3("Required field '", field.as_str(), "' is missing"),
            ValidationError::InvalidEnumValue { field, value, valid_values } => {
                let mut s = concat3("Invalid value '", value.as_str(), "' for field '");
                s.append(field.as_str());
                s.append("'. Valid values are: ");
                s.append(strings_debug_text(valid_values).as_str());
                s
            },
            ValidationError::DuplicateValue { field, value } => {
                let mut s = concat3("Duplicate value '", value.as_str(), "' for unique field '");
                s.append(field.as_str());
                s.append("'");
                s
            },
            ValidationError::InvalidReference { field } => concat3(
                "Invalid reference in field '",
                field.as_str(),
                "': referenced entity does not exist",
            ),
            ValidationError::Multiple(errors) => concat2(
                "Multiple validation errors: ",
                errors_debug_text(errors).as_str(),
            ),
        }
    }
}

} // verus!
