//! The messages of the domain errors, the conversions that wrap each kind
//! of error into a `DomainError`, and adding context to an error.

use vstd::prelude::*;
use crate::errors::{
    AuthorizationError, BusinessRuleError, ConflictError, DomainError, NotFoundError, ResourceConstraintError,
    StateTransitionError, ValidationError, debug_strings, strings_debug_text, validation_message,
};
use crate::ids::{uuid_text, uuid_to_string};
use crate::models::agent::AgentState;
use crate::models::conversation::ConversationState;
use crate::models::digital_twin::TwinState;
use crate::models::sensor_data::SensorStatus;
use crate::models::tool::{ExecutionStatus, ToolStatus};
use crate::text::{decimal, digit_char, digit_of, push_char, u64_to_string};

verus! {

/// The digits of a fraction of a second given in milliseconds (`0 < r <
/// 1000`): three digits, without trailing zeros.
pub open spec fn millis_fraction(r: nat) -> Seq<char> {
    if r % 100 == 0 {
        seq![digit_char(r / 100)]
    } else if r % 10 == 0 {
        seq![digit_char(r / 100), digit_char((r / 10) % 10)]
    } else {
        seq![digit_char(r / 100), digit_char((r / 10) % 10), digit_char(r % 10)]
    }
}

/// How a duration of `ms` milliseconds is written: whole and fractional
/// seconds with the unit `s` from one second on (`1.5s`), milliseconds below
/// that (`250ms`), and `0ns` for nothing, as `{:?}` writes a
/// `std::time::Duration`.
pub open spec fn duration_debug(ms: u64) -> Seq<char> {
    if ms >= 1000 {
        decimal((ms / 1000) as nat) + (if ms % 1000 == 0 {
            Seq::<char>::empty()
        } else {
            seq!['.'] + millis_fraction((ms % 1000) as nat)
        }) + "s"@
    } else if ms > 0 {
        decimal(ms as nat) + "ms"@
    } else {
        "0ns"@
    }
}

/// The text of a duration of `ms` milliseconds (see `duration_debug`).
pub fn duration_debug_text(ms: u64) -> (s: String)
    ensures
        s@ == duration_debug(ms),
{
    if ms >= 1000 {
        let mut s = u64_to_string(ms / 1000);
        let r = ms % 1000;
        if r != 0 {
            push_char(&mut s, '.');
            push_char(&mut s, digit_of(r / 100));
            if r % 100 != 0 {
                push_char(&mut s, digit_of((r / 10) % 10));
                if r % 10 != 0 {
                    push_char(&mut s, digit_of(r % 10));
                }
            }
        }
        s.append("s");
        proof {
            if r != 0 {
                let f = millis_fraction(r as nat);
                assert(seq!['.'] + f =~= seq!['.'].add(f));
            }
        }
        assert(s@ =~= duration_debug(ms));
        s
    } else if ms > 0 {
        let mut s = u64_to_string(ms);
        s.append("ms");
        s
    } else {
        String::from_str("0ns")
    }
}

/// The name of a `AgentState` value.
pub open spec fn agent_state_name(s: AgentState) -> Seq<char> {
    match s {
        AgentState::Active => "Active"@,
        AgentState::Inactive => "Inactive"@,
        AgentState::Processing => "Processing"@,
        AgentState::Error => "Error"@,
        AgentState::Maintenance => "Maintenance"@,
    }
}

fn agent_state_str(s: &AgentState) -> (r: &'static str)
    ensures
        r@ == agent_state_name(*s),
{
    match s {
        AgentState::Active => "Active",
        AgentState::Inactive => "Inactive",
        AgentState::Processing => "Processing",
        AgentState::Error => "Error",
        AgentState::Maintenance => "Maintenance",
    }
}

/// The name of a `TwinState` value.
pub open spec fn twin_state_name(s: TwinState) -> Seq<char> {
    match s {
        TwinState::Active => "Active"@,
        TwinState::Idle => "Idle"@,
        TwinState::Syncing => "Syncing"@,
        TwinState::Disconnected => "Disconnected"@,
        TwinState::Error => "Error"@,
        TwinState::Paused => "Paused"@,
        TwinState::Archived => "Archived"@,
    }
}

fn twin_state_str(s: &TwinState) -> (r: &'static str)
    ensures
        r@ == twin_state_name(*s),
{
    match s {
        TwinState::Active => "Active",
        TwinState::Idle => "Idle",
        TwinState::Syncing => "Syncing",
        TwinState::Disconnected => "Disconnected",
        TwinState::Error => "Error",
        TwinState::Paused => "Paused",
        TwinState::Archived => "Archived",
    }
}

/// The name of a `ConversationState` value.
pub open spec fn conversation_state_name(s: ConversationState) -> Seq<char> {
    match s {
        ConversationState::Active => "Active"@,
        ConversationState::Paused => "Paused"@,
        ConversationState::Archived => "Archived"@,
        ConversationState::Closed => "Closed"@,
    }
}

fn conversation_state_str(s: &ConversationState) -> (r: &'static str)
    ensures
        r@ == conversation_state_name(*s),
{
    match s {
        ConversationState::Active => "Active",
        ConversationState::Paused => "Paused",
        ConversationState::Archived => "Archived",
        ConversationState::Closed => "Closed",
    }
}

/// The name of a `SensorStatus` value.
pub open spec fn sensor_status_name(s: SensorStatus) -> Seq<char> {
    match s {
        SensorStatus::Online => "Online"@,
        SensorStatus::Offline => "Offline"@,
        SensorStatus::Warning => "Warning"@,
        SensorStatus::Failed => "Failed"@,
        SensorStatus::Maintenance => "Maintenance"@,
        SensorStatus::Initializing => "Initializing"@,
        SensorStatus::Unknown => "Unknown"@,
    }
}

fn sensor_status_str(s: &SensorStatus) -> (r: &'static str)
    ensures
        r@ == sensor_status_name(*s),
{
    match s {
        SensorStatus::Online => "Online",
        SensorStatus::Offline => "Offline",
        SensorStatus::Warning => "Warning",
        SensorStatus::Failed => "Failed",
        SensorStatus::Maintenance => "Maintenance",
        SensorStatus::Initializing => "Initializing",
        SensorStatus::Unknown => "Unknown",
    }
}

/// The name of a `ToolStatus` value.
pub open spec fn tool_status_name(s: ToolStatus) -> Seq<char> {
    match s {
        ToolStatus::Available => "Available"@,
        ToolStatus::Unavailable => "Unavailable"@,
        ToolStatus::Deprecated => "Deprecated"@,
        ToolStatus::Maintenance => "Maintenance"@,
        ToolStatus::Disabled => "Disabled"@,
    }
}

fn tool_status_str(s: &ToolStatus) -> (r: &'static str)
    ensures
        r@ == tool_status_name(*s),
{
    match s {
        ToolStatus::Available => "Available",
        ToolStatus::Unavailable => "Unavailable",
        ToolStatus::Deprecated => "Deprecated",
        ToolStatus::Maintenance => "Maintenance",
        ToolStatus::Disabled => "Disabled",
    }
}

/// The name of a `ExecutionStatus` value.
pub open spec fn execution_status_name(s: ExecutionStatus) -> Seq<char> {
    match s {
        ExecutionStatus::Pending => "Pending"@,
        ExecutionStatus::Running => "Running"@,
        ExecutionStatus::Success => "Success"@,
        ExecutionStatus::Failed => "Failed"@,
        ExecutionStatus::Cancelled => "Cancelled"@,
        ExecutionStatus::Timeout => "Timeout"@,
        ExecutionStatus::PartialSuccess => "PartialSuccess"@,
    }
}

fn execution_status_str(s: &ExecutionStatus) -> (r: &'static str)
    ensures
        r@ == execution_status_name(*s),
{
    match s {
        ExecutionStatus::Pending => "Pending",
        ExecutionStatus::Running => "Running",
        ExecutionStatus::Success => "Success",
        ExecutionStatus::Failed => "Failed",
        ExecutionStatus::Cancelled => "Cancelled",
        ExecutionStatus::Timeout => "Timeout",
        ExecutionStatus::PartialSuccess => "PartialSuccess",
    }
}

/// The message of a `NotFoundError`.
pub open spec fn not_found_text(e: NotFoundError) -> Seq<char> {
    match e {
        NotFoundError::Agent(id) => "Agent not found with ID: "@ + uuid_text(id),
        NotFoundError::Conversation(id) => "Conversation not found with ID: "@ + uuid_text(id),
        NotFoundError::Message(id) => "Message not found with ID: "@ + uuid_text(id),
        NotFoundError::DigitalTwin(id) => "Digital Twin not found with ID: "@ + uuid_text(id),
        NotFoundError::SensorData(id) => "Sensor data not found with ID: "@ + uuid_text(id),
        NotFoundError::Tool(id) => "Tool not found with ID: "@ + uuid_text(id),
        NotFoundError::ToolExecution(id) => "Tool execution not found with ID: "@ + uuid_text(id),
        NotFoundError::Generic { entity_type, identifier } => entity_type@ + " not found with identifier: "@ + identifier@,
    }
}

/// The message of a `StateTransitionError`.
pub open spec fn state_transition_text(e: StateTransitionError) -> Seq<char> {
    match e {
        StateTransitionError::InvalidAgentTransition { from, to } => "Cannot transition agent from "@ + agent_state_name(from) + " to "@ + agent_state_name(to),
        StateTransitionError::InvalidTwinTransition { from, to } => "Cannot transition digital twin from "@ + twin_state_name(from) + " to "@ + twin_state_name(to),
        StateTransitionError::InvalidConversationTransition { from, to } => "Cannot transition conversation from "@ + conversation_state_name(from) + " to "@ + conversation_state_name(to),
        StateTransitionError::InvalidSensorTransition { from, to } => "Cannot transition sensor from "@ + sensor_status_name(from) + " to "@ + sensor_status_name(to),
        StateTransitionError::InvalidToolTransition { from, to } => "Cannot transition tool from "@ + tool_status_name(from) + " to "@ + tool_status_name(to),
        StateTransitionError::InvalidExecutionTransition { from, to } => "Cannot transition execution from "@ + execution_status_name(from) + " to "@ + execution_status_name(to),
        StateTransitionError::PreconditionNotMet { reason } => "State precondition not met: "@ + reason@,
    }
}

/// The message of a `AuthorizationError`.
pub open spec fn authorization_text(e: AuthorizationError) -> Seq<char> {
    match e {
        AuthorizationError::InsufficientPermissions { required, actual } => "Insufficient permissions: requires "@ + debug_strings(required.deep_view()) + ", has "@ + debug_strings(actual.deep_view()),
        AuthorizationError::AccessDenied { entity_type, entity_id } => "Access denied to "@ + entity_type@ + " with ID "@ + entity_id@,
        AuthorizationError::OperationNotAllowed { operation, user } => "Operation '"@ + operation@ + "' not allowed for user '"@ + user@ + "'"@,
        AuthorizationError::InvalidCredentials => "Invalid credentials provided"@,
        AuthorizationError::TokenExpired => "Authentication token has expired"@,
        AuthorizationError::RateLimitExceeded { limit, period } => "Rate limit exceeded: "@ + decimal(limit as nat) + " requests per "@ + period@,
    }
}

/// The message of a `BusinessRuleError`.
pub open spec fn business_rule_text(e: BusinessRuleError) -> Seq<char> {
    match e {
        BusinessRuleError::AgentCapacityExceeded { agent_id, max } => "Agent "@ + uuid_text(agent_id) + " has reached maximum capacity of "@ + decimal(max as nat) + " concurrent conversations"@,
        BusinessRuleError::ConversationParticipantLimit { max } => "Conversation cannot have more than "@ + decimal(max as nat) + " participants"@,
        BusinessRuleError::ToolExecutionLimitReached { tool_id, limit, period } => "Tool "@ + uuid_text(tool_id) + " execution limit reached: "@ + decimal(limit as nat) + " per "@ + period@,
        BusinessRuleError::TwinSyncIntervalTooShort { requested, minimum } => "Twin sync interval "@ + decimal(requested as nat) + "s is below minimum allowed "@ + decimal(minimum as nat) + "s"@,
        BusinessRuleError::MessageSizeExceeded { size, limit } => "Message size "@ + decimal(size as nat) + " bytes exceeds limit of "@ + decimal(limit as nat) + " bytes"@,
        BusinessRuleError::CircularDependency { context } => "Circular dependency detected: "@ + context@,
        BusinessRuleError::InvalidToolChain { reason } => "Invalid tool chain: "@ + reason@,
        BusinessRuleError::RetentionPolicyViolation { days } => "Cannot delete data: retention policy requires keeping data for "@ + decimal(days as nat) + " days"@,
        BusinessRuleError::Custom { rule, message } => "Business rule violation: "@ + rule@ + " - "@ + message@,
    }
}

/// The message of a `ResourceConstraintError`.
pub open spec fn resource_constraint_text(e: ResourceConstraintError) -> Seq<char> {
    match e {
        ResourceConstraintError::MemoryLimitExceeded { requested, available } => "Memory limit exceeded: requested "@ + decimal(requested as nat) + " bytes, available "@ + decimal(available as nat) + " bytes"@,
        ResourceConstraintError::StorageLimitExceeded { used, limit } => "Storage limit exceeded: "@ + decimal(used as nat) + " of "@ + decimal(limit as nat) + " bytes used"@,
        ResourceConstraintError::ConnectionPoolExhausted { size } => "Connection pool exhausted: all "@ + decimal(size as nat) + " connections in use"@,
        ResourceConstraintError::QueueFull { queue, size, capacity } => "Queue '"@ + queue@ + "' is full: "@ + decimal(size as nat) + " items (capacity: "@ + decimal(capacity as nat) + ")"@,
        ResourceConstraintError::TokenLimitExceeded { used, limit } => "Token limit exceeded: "@ + decimal(used as nat) + " tokens (limit: "@ + decimal(limit as nat) + ")"@,
        ResourceConstraintError::BandwidthLimitExceeded { used, limit } => "Bandwidth limit exceeded: "@ + decimal(used as nat) + " bytes/s (limit: "@ + decimal(limit as nat) + " bytes/s)"@,
    }
}

/// The message of a `ConflictError`.
pub open spec fn conflict_text(e: ConflictError) -> Seq<char> {
    match e {
        ConflictError::ConcurrentModification { entity_type, entity_id } => "Concurrent modification detected for "@ + entity_type@ + " "@ + entity_id@,
        ConflictError::VersionMismatch { expected, actual } => "Version mismatch: expected "@ + expected@ + ", actual "@ + actual@,
        ConflictError::DuplicateEntity { entity_type, identifier } => "Duplicate "@ + entity_type@ + " with identifier "@ + identifier@,
        ConflictError::ResourceLocked { resource_type, resource_id } => "Resource "@ + resource_type@ + " "@ + resource_id@ + " is locked by another process"@,
        ConflictError::StateConflict { message } => "State conflict: "@ + message@,
    }
}

/// The message of a `DomainError`.
pub open spec fn domain_error_text(e: DomainError) -> Seq<char> {
    match e {
        DomainError::NotFound(e) => "Entity not found: "@ + not_found_text(e),
        DomainError::Validation(e) => "Validation failed: "@ + validation_message(e),
        DomainError::StateTransition(e) => "Invalid state transition: "@ + state_transition_text(e),
        DomainError::Authorization(e) => "Authorization failed: "@ + authorization_text(e),
        DomainError::BusinessRule(e) => "Business rule violation: "@ + business_rule_text(e),
        DomainError::ResourceConstraint(e) => "Resource constraint: "@ + resource_constraint_text(e),
        DomainError::Conflict(e) => "Conflict detected: "@ + conflict_text(e),
        DomainError::Timeout { duration_ms } => "Operation timed out after "@ + duration_debug(duration_ms),
        DomainError::ExternalService { service, message } => "External service error: "@ + service@ + " - "@ + message@,
        DomainError::DataIntegrity(m) => "Data integrity violation: "@ + m@,
        DomainError::Configuration(m) => "Configuration error: "@ + m@,
        DomainError::Other(m) => "Domain error: "@ + m@,
    }
}

impl NotFoundError {
    /// The message of this error.
    pub fn to_string(&self) -> (s: String)
        ensures
            s@ == not_found_text(*self),
    {
        match self {
            NotFoundError::Agent(id) => {
                let mut s = String::from_str("Agent not found with ID: ");
                let t1 = uuid_to_string(*id);
                s.append(t1.as_str());
                s
            },
            NotFoundError::Conversation(id) => {
                let mut s = String::from_str("Conversation not found with ID: ");
                let t1 = uuid_to_string(*id);
                s.append(t1.as_str());
                s
            },
            NotFoundError::Message(id) => {
                let mut s = String::from_str("Message not found with ID: ");
                let t1 = uuid_to_string(*id);
                s.append(t1.as_str());
                s
            },
            NotFoundError::DigitalTwin(id) => {
                let mut s = String::from_str("Digital Twin not found with ID: ");
                let t1 = uuid_to_string(*id);
                s.append(t1.as_str());
                s
            },
            NotFoundError::SensorData(id) => {
                let mut s = String::from_str("Sensor data not found with ID: ");
                let t1 = uuid_to_string(*id);
                s.append(t1.as_str());
                s
            },
            NotFoundError::Tool(id) => {
                let mut s = String::from_str("Tool not found with ID: ");
                let t1 = uuid_to_string(*id);
                s.append(t1.as_str());
                s
            },
            NotFoundError::ToolExecution(id) => {
                let mut s = String::from_str("Tool execution not found with ID: ");
                let t1 = uuid_to_string(*id);
                s.append(t1.as_str());
                s
            },
            NotFoundError::Generic { entity_type, identifier } => {
                let mut s = String::from_str(entity_type.as_str());
                s.append(" not found with identifier: ");
                s.append(identifier.as_str());
                s
            },
        }
    }
}

impl StateTransitionError {
    /// The message of this error.
    pub fn to_string(&self) -> (s: String)
        ensures
            s@ == state_transition_text(*self),
    {
        match self {
            StateTransitionError::InvalidAgentTransition { from, to } => {
                let mut s = String::from_str("Cannot transition agent from ");
                s.append(agent_state_str(from));
                s.append(" to ");
                s.append(agent_state_str(to));
                s
            },
            StateTransitionError::InvalidTwinTransition { from, to } => {
                let mut s = String::from_str("Cannot transition digital twin from ");
                s.append(twin_state_str(from));
                s.append(" to ");
                s.append(twin_state_str(to));
                s
            },
            StateTransitionError::InvalidConversationTransition { from, to } => {
                let mut s = String::from_str("Cannot transition conversation from ");
                s.append(conversation_state_str(from));
                s.append(" to ");
                s.append(conversation_state_str(to));
                s
            },
            StateTransitionError::InvalidSensorTransition { from, to } => {
                let mut s = String::from_str("Cannot transition sensor from ");
                s.append(sensor_status_str(from));
                s.append(" to ");
                s.append(sensor_status_str(to));
                s
            },
            StateTransitionError::InvalidToolTransition { from, to } => {
                let mut s = String::from_str("Cannot transition tool from ");
                s.append(tool_status_str(from));
                s.append(" to ");
                s.append(tool_status_str(to));
                s
            },
            StateTransitionError::InvalidExecutionTransition { from, to } => {
                let mut s = String::from_str("Cannot transition execution from ");
                s.append(execution_status_str(from));
                s.append(" to ");
                s.append(execution_status_str(to));
                s
            },
            StateTransitionError::PreconditionNotMet { reason } => {
                let mut s = String::from_str("State precondition not met: ");
                s.append(reason.as_str());
                s
            },
        }
    }
}

impl AuthorizationError {
    /// The message of this error.
    pub fn to_string(&self) -> (s: String)
        ensures
            s@ == authorization_text(*self),
    {
        match self {
            AuthorizationError::InsufficientPermissions { required, actual } => {
                let mut s = String::from_str("Insufficient permissions: requires ");
                let t1 = strings_debug_text(required);
                s.append(t1.as_str());
                s.append(", has ");
                let t3 = strings_debug_text(actual);
                s.append(t3.as_str());
                s
            },
            AuthorizationError::AccessDenied { entity_type, entity_id } => {
                let mut s = String::from_str("Access denied to ");
                s.append(entity_type.as_str());
                s.append(" with ID ");
                s.append(entity_id.as_str());
                s
            },
            AuthorizationError::OperationNotAllowed { operation, user } => {
                let mut s = String::from_str("Operation '");
                s.append(operation.as_str());
                s.append("' not allowed for user '");
                s.append(user.as_str());
                s.append("'");
                s
            },
            AuthorizationError::InvalidCredentials => {
                let mut s = String::from_str("Invalid credentials provided");
                s
            },
            AuthorizationError::TokenExpired => {
                let mut s = String::from_str("Authentication token has expired");
                s
            },
            AuthorizationError::RateLimitExceeded { limit, period } => {
                let mut s = String::from_str("Rate limit exceeded: ");
                let t1 = u64_to_string(*limit as u64);
                s.append(t1.as_str());
                s.append(" requests per ");
                s.append(period.as_str());
                s
            },
        }
    }
}

impl BusinessRuleError {
    /// The message of this error.
    pub fn to_string(&self) -> (s: String)
        ensures
            s@ == business_rule_text(*self),
    {
        match self {
            BusinessRuleError::AgentCapacityExceeded { agent_id, max } => {
                let mut s = String::from_str("Agent ");
                let t1 = uuid_to_string(*agent_id);
                s.append(t1.as_str());
                s.append(" has reached maximum capacity of ");
                let t3 = u64_to_string(*max as u64);
                s.append(t3.as_str());
                s.append(" concurrent conversations");
                s
            },
            BusinessRuleError::ConversationParticipantLimit { max } => {
                let mut s = String::from_str("Conversation cannot have more than ");
                let t1 = u64_to_string(*max as u64);
                s.append(t1.as_str());
                s.append(" participants");
                s
            },
            BusinessRuleError::ToolExecutionLimitReached { tool_id, limit, period } => {
                let mut s = String::from_str("Tool ");
                let t1 = uuid_to_string(*tool_id);
                s.append(t1.as_str());
                s.append(" execution limit reached: ");
                let t3 = u64_to_string(*limit as u64);
                s.append(t3.as_str());
                s.append(" per ");
                s.append(period.as_str());
                s
            },
            BusinessRuleError::TwinSyncIntervalTooShort { requested, minimum } => {
                let mut s = String::from_str("Twin sync interval ");
                let t1 = u64_to_string(*requested as u64);
                s.append(t1.as_str());
                s.append("s is below minimum allowed ");
                let t3 = u64_to_string(*minimum as u64);
                s.append(t3.as_str());
                s.append("s");
                s
            },
            BusinessRuleError::MessageSizeExceeded { size, limit } => {
                let mut s = String::from_str("Message size ");
                let t1 = u64_to_string(*size as u64);
                s.append(t1.as_str());
                s.append(" bytes exceeds limit of ");
                let t3 = u64_to_string(*limit as u64);
                s.append(t3.as_str());
                s.append(" bytes");
                s
            },
            BusinessRuleError::CircularDependency { context } => {
                let mut s = String::from_str("Circular dependency detected: ");
                s.append(context.as_str());
                s
            },
            BusinessRuleError::InvalidToolChain { reason } => {
                let mut s = String::from_str("Invalid tool chain: ");
                s.append(reason.as_str());
                s
            },
            BusinessRuleError::RetentionPolicyViolation { days } => {
                let mut s = String::from_str("Cannot delete data: retention policy requires keeping data for ");
                let t1 = u64_to_string(*days as u64);
                s.append(t1.as_str());
                s.append(" days");
                s
            },
            BusinessRuleError::Custom { rule, message } => {
                let mut s = String::from_str("Business rule violation: ");
                s.append(rule.as_str());
                s.append(" - ");
                s.append(message.as_str());
                s
            },
        }
    }
}

impl ResourceConstraintError {
    /// The message of this error.
    pub fn to_string(&self) -> (s: String)
        ensures
            s@ == resource_constraint_text(*self),
    {
        match self {
            ResourceConstraintError::MemoryLimitExceeded { requested, available } => {
                let mut s = String::from_str("Memory limit exceeded: requested ");
                let t1 = u64_to_string(*requested as u64);
                s.append(t1.as_str());
                s.append(" bytes, available ");
                let t3 = u64_to_string(*available as u64);
                s.append(t3.as_str());
                s.append(" bytes");
                s
            },
            ResourceConstraintError::StorageLimitExceeded { used, limit } => {
                let mut s = String::from_str("Storage limit exceeded: ");
                let t1 = u64_to_string(*used as u64);
                s.append(t1.as_str());
                s.append(" of ");
                let t3 = u64_to_string(*limit as u64);
                s.append(t3.as_str());
                s.append(" bytes used");
                s
            },
            ResourceConstraintError::ConnectionPoolExhausted { size } => {
                let mut s = String::from_str("Connection pool exhausted: all ");
                let t1 = u64_to_string(*size as u64);
                s.append(t1.as_str());
                s.append(" connections in use");
                s
            },
            ResourceConstraintError::QueueFull { queue, size, capacity } => {
                let mut s = String::from_str("Queue '");
                s.append(queue.as_str());
                s.append("' is full: ");
                let t3 = u64_to_string(*size as u64);
                s.append(t3.as_str());
                s.append(" items (capacity: ");
                let t5 = u64_to_string(*capacity as u64);
                s.append(t5.as_str());
                s.append(")");
                s
            },
            ResourceConstraintError::TokenLimitExceeded { used, limit } => {
                let mut s = String::from_str("Token limit exceeded: ");
                let t1 = u64_to_string(*used as u64);
                s.append(t1.as_str());
                s.append(" tokens (limit: ");
                let t3 = u64_to_string(*limit as u64);
                s.append(t3.as_str());
                s.append(")");
                s
            },
            ResourceConstraintError::BandwidthLimitExceeded { used, limit } => {
                let mut s = String::from_str("Bandwidth limit exceeded: ");
                let t1 = u64_to_string(*used as u64);
                s.append(t1.as_str());
                s.append(" bytes/s (limit: ");
                let t3 = u64_to_string(*limit as u64);
                s.append(t3.as_str());
                s.append(" bytes/s)");
                s
            },
        }
    }
}

impl ConflictError {
    /// The message of this error.
    pub fn to_string(&self) -> (s: String)
        ensures
            s@ == conflict_text(*self),
    {
        match self {
            ConflictError::ConcurrentModification { entity_type, entity_id } => {
                let mut s = String::from_str("Concurrent modification detected for ");
                s.append(entity_type.as_str());
                s.append(" ");
                s.append(entity_id.as_str());
                s
            },
            ConflictError::VersionMismatch { expected, actual } => {
                let mut s = String::from_str("Version mismatch: expected ");
                s.append(expected.as_str());
                s.append(", actual ");
                s.append(actual.as_str());
                s
            },
            ConflictError::DuplicateEntity { entity_type, identifier } => {
                let mut s = String::from_str("Duplicate ");
                s.append(entity_type.as_str());
                s.append(" with identifier ");
                s.append(identifier.as_str());
                s
            },
            ConflictError::ResourceLocked { resource_type, resource_id } => {
                let mut s = String::from_str("Resource ");
                s.append(resource_type.as_str());
                s.append(" ");
                s.append(resource_id.as_str());
                s.append(" is locked by another process");
                s
            },
            ConflictError::StateConflict { message } => {
                let mut s = String::from_str("State conflict: ");
                s.append(message.as_str());
                s
            },
        }
    }
}

impl DomainError {
    /// The message of this error.
    pub fn to_string(&self) -> (s: String)
        ensures
            s@ == domain_error_text(*self),
    {
        match self {
            DomainError::NotFound(e) => {
                let mut s = String::from_str("Entity not found: ");
                let t1 = e.to_string();
                s.append(t1.as_str());
                s
            },
            DomainError::Validation(e) => {
                let mut s = String::from_str("Validation failed: ");
                let t1 = e.to_string();
                s.append(t1.as_str());
                s
            },
            DomainError::StateTransition(e) => {
                let mut s = String::from_str("Invalid state transition: ");
                let t1 = e.to_string();
                s.append(t1.as_str());
                s
            },
            DomainError::Authorization(e) => {
                let mut s = String::from_str("Authorization failed: ");
                let t1 = e.to_string();
                s.append(t1.as_str());
                s
            },
            DomainError::BusinessRule(e) => {
                let mut s = String::from_str("Business rule violation: ");
                let t1 = e.to_string();
                s.append(t1.as_str());
                s
            },
            DomainError::ResourceConstraint(e) => {
                let mut s = String::from_str("Resource constraint: ");
                let t1 = e.to_string();
                s.append(t1.as_str());
                s
            },
            DomainError::Conflict(e) => {
                let mut s = String::from_str("Conflict detected: ");
                let t1 = e.to_string();
                s.append(t1.as_str());
                s
            },
            DomainError::Timeout { duration_ms } => {
                let mut s = String::from_str("Operation timed out after ");
                let t1 = duration_debug_text(*duration_ms);
                s.append(t1.as_str());
                s
            },
            DomainError::ExternalService { service, message } => {
                let mut s = String::from_str("External service error: ");
                s.append(service.as_str());
                s.append(" - ");
                s.append(message.as_str());
                s
            },
            DomainError::DataIntegrity(m) => {
                let mut s = String::from_str("Data integrity violation: ");
                s.append(m.as_str());
                s
            },
            DomainError::Configuration(m) => {
                let mut s = String::from_str("Configuration error: ");
                s.append(m.as_str());
                s
            },
            DomainError::Other(m) => {
                let mut s = String::from_str("Domain error: ");
                s.append(m.as_str());
                s
            },
        }
    }
}

impl From<NotFoundError> for DomainError {
    fn from(e: NotFoundError) -> (d: Self) {
        DomainError::NotFound(e)
    }
}

impl vstd::std_specs::convert::FromSpecImpl<NotFoundError> for DomainError {
    open spec fn obeys_from_spec() -> bool {
        true
    }

    open spec fn from_spec(e: NotFoundError) -> Self {
        DomainError::NotFound(e)
    }
}

impl From<ValidationError> for DomainError {
    fn from(e: ValidationError) -> (d: Self) {
        DomainError::Validation(e)
    }
}

impl vstd::std_specs::convert::FromSpecImpl<ValidationError> for DomainError {
    open spec fn obeys_from_spec() -> bool {
        true
    }

    open spec fn from_spec(e: ValidationError) -> Self {
        DomainError::Validation(e)
    }
}

impl From<StateTransitionError> for DomainError {
    fn from(e: StateTransitionError) -> (d: Self) {
        DomainError::StateTransition(e)
    }
}

impl vstd::std_specs::convert::FromSpecImpl<StateTransitionError> for DomainError {
    open spec fn obeys_from_spec() -> bool {
        true
    }

    open spec fn from_spec(e: StateTransitionError) -> Self {
        DomainError::StateTransition(e)
    }
}

impl From<AuthorizationError> for DomainError {
    fn from(e: AuthorizationError) -> (d: Self) {
        DomainError::Authorization(e)
    }
}

impl vstd::std_specs::convert::FromSpecImpl<AuthorizationError> for DomainError {
    open spec fn obeys_from_spec() -> bool {
        true
    }

    open spec fn from_spec(e: AuthorizationError) -> Self {
        DomainError::Authorization(e)
    }
}

impl From<BusinessRuleError> for DomainError {
    fn from(e: BusinessRuleError) -> (d: Self) {
        DomainError::BusinessRule(e)
    }
}

impl vstd::std_specs::convert::FromSpecImpl<BusinessRuleError> for DomainError {
    open spec fn obeys_from_spec() -> bool {
        true
    }

    open spec fn from_spec(e: BusinessRuleError) -> Self {
        DomainError::BusinessRule(e)
    }
}

impl From<ResourceConstraintError> for DomainError {
    fn from(e: ResourceConstraintError) -> (d: Self) {
        DomainError::ResourceConstraint(e)
    }
}

impl vstd::std_specs::convert::FromSpecImpl<ResourceConstraintError> for DomainError {
    open spec fn obeys_from_spec() -> bool {
        true
    }

    open spec fn from_spec(e: ResourceConstraintError) -> Self {
        DomainError::ResourceConstraint(e)
    }
}

impl From<ConflictError> for DomainError {
    fn from(e: ConflictError) -> (d: Self) {
        DomainError::Conflict(e)
    }
}

impl vstd::std_specs::convert::FromSpecImpl<ConflictError> for DomainError {
    open spec fn obeys_from_spec() -> bool {
        true
    }

    open spec fn from_spec(e: ConflictError) -> Self {
        DomainError::Conflict(e)
    }
}

/// The text of `e` with `context` in front: an `Other` error contributes
/// its own text, any other error its full message.
pub open spec fn context_text(e: DomainError, context: Seq<char>) -> Seq<char> {
    match e {
        DomainError::Other(m) => context + ": "@ + m@,
        _ => context + ": "@ + domain_error_text(e),
    }
}

/// `e` with `context` put in front of its message, as an `Other` error.
pub fn with_context(e: DomainError, context: &str) -> (r: DomainError)
    ensures
        r matches DomainError::Other(m) && m@ == context_text(e, context@),
{
    match e {
        DomainError::Other(m) => {
            let mut s = String::from_str(context);
            s.append(": ");
            s.append(m.as_str());
            DomainError::Other(s)
        },
        _ => {
            let t = e.to_string();
            let mut s = String::from_str(context);
            s.append(": ");
            s.append(t.as_str());
            DomainError::Other(s)
        },
    }
}

/// Errors that can be turned into a `DomainError` with context added.
pub trait ErrorExt: Sized {
    fn context(self, context: &str) -> DomainError;
}

impl ErrorExt for DomainError {
    /// This error with `context` put in front of its message.
    fn context(self, context: &str) -> (r: DomainError)
        ensures
            r matches DomainError::Other(m) && m@ == context_text(self, context@),
    {
        with_context(self, context)
    }
}


impl ErrorExt for NotFoundError {
    /// This error, as a `DomainError`, with `context` put in front of its
    /// message.
    fn context(self, context: &str) -> (r: DomainError)
        ensures
            r matches DomainError::Other(m) && m@ == context_text(DomainError::NotFound(self), context@),
    {
        with_context(DomainError::from(self), context)
    }
}

impl ErrorExt for ValidationError {
    /// This error, as a `DomainError`, with `context` put in front of its
    /// message.
    fn context(self, context: &str) -> (r: DomainError)
        ensures
            r matches DomainError::Other(m) && m@ == context_text(DomainError::Validation(self), context@),
    {
        with_context(DomainError::from(self), context)
    }
}

impl ErrorExt for StateTransitionError {
    /// This error, as a `DomainError`, with `context` put in front of its
    /// message.
    fn context(self, context: &str) -> (r: DomainError)
        ensures
            r matches DomainError::Other(m) && m@ == context_text(DomainError::StateTransition(self), context@),
    {
        with_context(DomainError::from(self), context)
    }
}

impl ErrorExt for AuthorizationError {
    /// This error, as a `DomainError`, with `context` put in front of its
    /// message.
    fn context(self, context: &str) -> (r: DomainError)
        ensures
            r matches DomainError::Other(m) && m@ == context_text(DomainError::Authorization(self), context@),
    {
        with_context(DomainError::from(self), context)
    }
}

impl ErrorExt for BusinessRuleError {
    /// This error, as a `DomainError`, with `context` put in front of its
    /// message.
    fn context(self, context: &str) -> (r: DomainError)
        ensures
            r matches DomainError::Other(m) && m@ == context_text(DomainError::BusinessRule(self), context@),
    {
        with_context(DomainError::from(self), context)
    }
}

impl ErrorExt for ResourceConstraintError {
    /// This error, as a `DomainError`, with `context` put in front of its
    /// message.
    fn context(self, context: &str) -> (r: DomainError)
        ensures
            r matches DomainError::Other(m) && m@ == context_text(DomainError::ResourceConstraint(self), context@),
    {
        with_context(DomainError::from(self), context)
    }
}

impl ErrorExt for ConflictError {
    /// This error, as a `DomainError`, with `context` put in front of its
    /// message.
    fn context(self, context: &str) -> (r: DomainError)
        ensures
            r matches DomainError::Other(m) && m@ == context_text(DomainError::Conflict(self), context@),
    {
        with_context(DomainError::from(self), context)
    }
}

} // verus!
