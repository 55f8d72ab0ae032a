//! Tool descriptions: parameters, outputs, execution limits and security.

use vstd::prelude::*;
use crate::ids::{is_random_uuid, new_uuid, now_micros};
use crate::json::JsonValue;

verus! {

/// Status of one tool execution.
#[derive(Debug, Clone, Copy, PartialEq, Eq, Structural)]
pub enum ExecutionStatus {
    Pending,
    Running,
    Success,
    Failed,
    Cancelled,
    Timeout,
    PartialSuccess,
}

/// Type of a tool parameter. An object's properties have distinct names.
#[derive(Debug)]
pub enum ParameterType {
    String,
    Integer,
    Float,
    Boolean,
    Array { item_type: Box<ParameterType> },
    Object { properties: Vec<(String, ParameterType)> },
    FilePath,
    Url,
    Json,
    Enum { values: Vec<String> },
}

/// Kind of output a tool produces.
#[derive(Debug, Clone, Copy, PartialEq, Eq, Structural)]
pub enum OutputType {
    Text,
    Json,
    Binary,
    File,
    Stream,
    Void,
    Multiple,
}

/// Resource limits of one execution.
#[derive(Debug, Clone, Copy, PartialEq, Eq, Structural)]
pub struct ResourceLimits {
    pub max_memory: Option<u64>,
    pub max_cpu_ms: Option<u64>,
    pub max_output_size: Option<u64>,
    pub max_files: Option<u32>,
    pub network_bandwidth: Option<u64>,
}

/// Isolation level of an execution.
#[derive(Debug, Clone, Copy, PartialEq, Eq, Structural)]
pub enum IsolationLevel {
    NoIsolation,
    Process,
    Container,
    VM,
}

/// Environment of an execution; the variables have distinct names.
#[derive(Debug, Clone)]
pub struct ExecutionEnvironment {
    pub variables: Vec<(String, String)>,
    pub working_dir: Option<String>,
    pub user: Option<String>,
    pub isolation: IsolationLevel,
}

/// Concurrency settings of a tool.
#[derive(Debug, Clone, Copy, PartialEq, Eq, Structural)]
pub struct ConcurrencyConfig {
    pub max_concurrent: u32,
    pub queue_size: u32,
    pub priority_enabled: bool,
}

/// A permission: an action on a scope, optionally on one resource.
#[derive(Debug, Clone)]
pub struct Permission {
    pub scope: String,
    pub action: String,
    pub resource: Option<String>,
}

/// Authentication that a tool requires.
#[derive(Debug, Clone, Copy, PartialEq, Eq, Structural)]
pub enum AuthRequirement {
    NoAuthentication,
    ApiKey,
    OAuth,
    UserSession,
    Custom,
}

/// Audit logging of a tool.
#[derive(Debug, Clone, Copy, PartialEq, Eq, Structural)]
pub struct AuditConfig {
    pub log_executions: bool,
    pub log_inputs: bool,
    pub log_outputs: bool,
    pub retention_days: u32,
}

/// Rate limits of a tool.
#[derive(Debug, Clone, Copy, PartialEq, Eq, Structural)]
pub struct RateLimits {
    pub per_minute: Option<u32>,
    pub per_hour: Option<u32>,
    pub per_day: Option<u32>,
    pub burst_size: Option<u32>,
}

/// How long execution data is retained.
#[derive(Debug, Clone, Copy, PartialEq, Eq, Structural)]
pub enum RetentionPolicy {
    Indefinite,
    Duration { days: u32 },
    Immediate,
}

/// Handling of personally identifiable information.
#[derive(Debug, Clone, Copy, PartialEq, Eq, Structural)]
pub enum PiiHandling {
    Allow,
    Redact,
    Block,
}

/// Data handling policies of a tool.
#[derive(Debug, Clone, Copy, PartialEq, Eq, Structural)]
pub struct DataPolicies {
    pub encrypt_transit: bool,
    pub encrypt_rest: bool,
    pub retention: RetentionPolicy,
    pub pii_handling: PiiHandling,
}

/// Security settings of a tool.
#[derive(Debug, Clone)]
pub struct SecurityConfig {
    pub required_permissions: Vec<Permission>,
    pub authentication: AuthRequirement,
    pub audit: AuditConfig,
    pub rate_limits: RateLimits,
    pub data_policies: DataPolicies,
}

impl Default for SecurityConfig {
    fn default() -> (c: Self)
        ensures
            c.required_permissions@.len() == 0,
            c.authentication == AuthRequirement::NoAuthentication,
            c.audit == (AuditConfig { log_executions: true, log_inputs: false, log_outputs: false, retention_days: 30 }),
            c.rate_limits == (RateLimits {
                per_minute: Some(60u32),
                per_hour: Some(1000u32),
                per_day: Some(10000u32),
                burst_size: Some(10u32),
            }),
            c.data_policies == (DataPolicies {
                encrypt_transit: true,
                encrypt_rest: false,
                retention: RetentionPolicy::Duration { days: 30 },
                pii_handling: PiiHandling::Allow,
            }),
    {
        SecurityConfig {
            required_permissions: Vec::new(),
            authentication: AuthRequirement::NoAuthentication,
            audit: AuditConfig { log_executions: true, log_inputs: false, log_outputs: false, retention_days: 30 },
            rate_limits: RateLimits { per_minute: Some(60), per_hour: Some(1000), per_day: Some(10000), burst_size: Some(10) },
            data_policies: DataPolicies {
                encrypt_transit: true,
                encrypt_rest: false,
                retention: RetentionPolicy::Duration { days: 30 },
                pii_handling: PiiHandling::Allow,
            },
        }
    }
}

/// Availability of a tool.
#[derive(Debug, Clone, Copy, PartialEq, Eq, Structural)]
pub enum ToolStatus {
    Available,
    Unavailable,
    Deprecated,
    Maintenance,
    Disabled,
}

/// Severity of an execution diagnostic.
#[derive(Debug, Clone, Copy, PartialEq, Eq, Structural)]
pub enum DiagnosticLevel {
    Debug,
    Info,
    Warning,
    Error,
}

/// File-system operations a tool may perform.
#[derive(Debug, Clone, Copy, PartialEq, Eq, Structural)]
pub enum FileOperation {
    Read,
    Write,
    Delete,
    Create,
    Rename,
    Copy,
    Move,
    List,
}

/// HTTP methods a tool may use.
#[derive(Debug, Clone, Copy, PartialEq, Eq, Structural)]
pub enum HttpMethod {
    GET,
    POST,
    PUT,
    DELETE,
    PATCH,
    HEAD,
    OPTIONS,
}

/// Database operations a tool may perform.
#[derive(Debug, Clone, Copy, PartialEq, Eq, Structural)]
pub enum DatabaseOperation {
    Select,
    Insert,
    Update,
    Delete,
    CreateTable,
    DropTable,
    Execute,
}

/// Sandbox settings of a code-running tool.
#[derive(Debug, Clone)]
pub struct SandboxConfig {
    pub allowed_imports: Vec<String>,
    pub blocked_functions: Vec<String>,
    pub filesystem_access: bool,
    pub network_access: bool,
    pub max_execution_time_ms: u64,
}

/// How often a tool was run, how many of the runs succeeded or failed, and
/// when it last ran (microseconds since the Unix epoch).
/// The average run time, a floating-point figure, is kept by the
/// application layer.
#[derive(Debug, Clone, Copy, PartialEq, Eq, Structural)]
pub struct ToolUsage {
    pub total_executions: u64,
    pub successful_executions: u64,
    pub failed_executions: u64,
    pub last_execution: Option<i64>,
}

impl ToolUsage {
    /// No run yet, as a value.
    pub open spec fn new_spec() -> Self {
        ToolUsage { total_executions: 0, successful_executions: 0, failed_executions: 0, last_execution: None }
    }

    /// No run yet.
    pub fn new() -> (u: Self)
        ensures
            u == Self::new_spec(),
    {
        ToolUsage { total_executions: 0, successful_executions: 0, failed_executions: 0, last_execution: None }
    }

    /// Counts one more run, which ended in `status`: a success counts as
    /// successful, a failure as failed, any other end only in the total.
    pub fn record_execution(&mut self, status: ExecutionStatus)
        requires
            old(self).total_executions < u64::MAX,
            old(self).successful_executions < u64::MAX,
            old(self).failed_executions < u64::MAX,
        ensures
            final(self).total_executions == old(self).total_executions + 1,
            final(self).successful_executions == old(self).successful_executions + if status
                == ExecutionStatus::Success {
                1int
            } else {
                0int
            },
            final(self).failed_executions == old(self).failed_executions + if status == ExecutionStatus::Failed {
                1int
            } else {
                0int
            },
            old(self).successful_executions + old(self).failed_executions <= old(self).total_executions ==> final(self).successful_executions + final(self).failed_executions <= final(self).total_executions,
            final(self).last_execution == old(self).last_execution,
    {
        self.total_executions = self.total_executions + 1;
        match status {
            ExecutionStatus::Success => {
                self.successful_executions = self.successful_executions + 1;
            },
            ExecutionStatus::Failed => {
                self.failed_executions = self.failed_executions + 1;
            },
            _ => {},
        }
    }
}

/// What a tool does, with what it is allowed to touch. Its maps (the
/// environment, the capabilities) are lists of name/value pairs.
#[derive(Debug)]
pub enum ToolType {
    FileSystem { allowed_operations: Vec<FileOperation>, allowed_paths: Vec<String> },
    HttpRequest { allowed_methods: Vec<HttpMethod>, allowed_domains: Vec<String> },
    Database { db_type: String, allowed_operations: Vec<DatabaseOperation> },
    CodeExecution { language: String, sandbox_config: SandboxConfig },
    DataTransformation { transform_type: String, supported_formats: Vec<String> },
    SystemCommand { allowed_commands: Vec<String>, environment: Vec<(String, String)> },
    ModelInference { model_type: String, model_id: String },
    Communication { channel_type: String, protocols: Vec<String> },
    Custom { category: String, capabilities: Vec<(String, JsonValue)> },
}

/// Rules a parameter's value must meet. The numeric bounds are held as
/// their decimal text and checked by the application layer.
#[derive(Debug, Clone)]
pub struct ValidationRules {
    pub min: Option<String>,
    pub max: Option<String>,
    pub min_length: Option<usize>,
    pub max_length: Option<usize>,
    pub pattern: Option<String>,
    pub custom_validator: Option<String>,
}

/// A parameter a tool accepts.
#[derive(Debug)]
pub struct ToolParameter {
    pub name: String,
    pub description: String,
    pub param_type: ParameterType,
    pub required: bool,
    pub default_value: Option<JsonValue>,
    pub validation: Option<ValidationRules>,
}

/// What a tool run produced.
#[derive(Debug)]
pub enum ToolOutput {
    Text(String),
    Json(JsonValue),
    Binary { data: String, mime_type: String },
    File { path: String, size: u64, checksum: Option<String> },
    Multiple(Vec<ToolOutput>),
    Stream { stream_id: String, content_type: String },
    Void,
    Error { code: String, message: String, details: Option<JsonValue> },
}

/// Figures measured during a run. Custom figures are held by name with
/// their decimal text.
#[derive(Debug)]
pub struct ExecutionMetrics {
    pub duration_ms: u64,
    pub memory_bytes: Option<u64>,
    pub cpu_ms: Option<u64>,
    pub network_bytes: Option<u64>,
    pub retry_count: u32,
    pub custom_metrics: Vec<(String, String)>,
}

impl ExecutionMetrics {
    /// Nothing measured.
    pub fn new() -> (m: Self)
        ensures
            m.duration_ms == 0,
            m.memory_bytes is None,
            m.cpu_ms is None,
            m.network_bytes is None,
            m.retry_count == 0,
            m.custom_metrics@.len() == 0,
    {
        ExecutionMetrics {
            duration_ms: 0,
            memory_bytes: None,
            cpu_ms: None,
            network_bytes: None,
            retry_count: 0,
            custom_metrics: Vec::new(),
        }
    }
}

/// A note raised during a run.
#[derive(Debug)]
pub struct Diagnostic {
    pub level: DiagnosticLevel,
    pub code: String,
    pub message: String,
    pub location: Option<String>,
    pub context: Vec<(String, JsonValue)>,
}

/// The result of one tool run. Instants are in microseconds since the Unix
/// epoch.
#[derive(Debug)]
pub struct ToolResult {
    pub execution_id: u128,
    pub tool_id: u128,
    pub status: ExecutionStatus,
    pub output: ToolOutput,
    pub metrics: ExecutionMetrics,
    pub diagnostics: Vec<Diagnostic>,
    pub started_at: i64,
    pub completed_at: Option<i64>,
}

impl ToolResult {
    /// A successful run of the tool `tool_id` that produced `output`,
    /// completed as it started, with a fresh random identifier.
    pub fn success(tool_id: u128, output: ToolOutput) -> (r: Self)
        ensures
            is_random_uuid(r.execution_id),
            r.tool_id == tool_id,
            r.status == ExecutionStatus::Success,
            r.output == output,
            r.metrics.duration_ms == 0,
            r.diagnostics@.len() == 0,
            r.completed_at == Some(r.started_at),
    {
        let now = now_micros();
        ToolResult {
            execution_id: new_uuid(),
            tool_id,
            status: ExecutionStatus::Success,
            output,
            metrics: ExecutionMetrics::new(),
            diagnostics: Vec::new(),
            started_at: now,
            completed_at: Some(now),
        }
    }

    /// A failed run of the tool `tool_id`: its output is the error
    /// `EXECUTION_FAILED` with message `error`, and one diagnostic of level
    /// error says the same.
    pub fn failure(tool_id: u128, error: String) -> (r: Self)
        ensures
            is_random_uuid(r.execution_id),
            r.tool_id == tool_id,
            r.status == ExecutionStatus::Failed,
            r.output matches ToolOutput::Error { code, message, details } && code@ == "EXECUTION_FAILED"@
                && message@ == error@ && details is None,
            r.metrics.duration_ms == 0,
            r.diagnostics@.len() == 1,
            r.diagnostics@[0].level == DiagnosticLevel::Error,
            r.diagnostics@[0].code@ == "EXECUTION_FAILED"@,
            r.diagnostics@[0].message@ == error@,
            r.diagnostics@[0].location is None,
            r.diagnostics@[0].context@.len() == 0,
            r.completed_at == Some(r.started_at),
    {
        let now = now_micros();
        let diagnostic = Diagnostic {
            level: DiagnosticLevel::Error,
            code: String::from_str("EXECUTION_FAILED"),
            message: error.clone(),
            location: None,
            context: Vec::new(),
        };
        let mut diagnostics: Vec<Diagnostic> = Vec::new();
        diagnostics.push(diagnostic);
        ToolResult {
            execution_id: new_uuid(),
            tool_id,
            status: ExecutionStatus::Failed,
            output: ToolOutput::Error { code: String::from_str("EXECUTION_FAILED"), message: error, details: None },
            metrics: ExecutionMetrics::new(),
            diagnostics,
            started_at: now,
            completed_at: Some(now),
        }
    }

    /// Whether the run succeeded, wholly or in part.
    pub fn is_success(&self) -> (b: bool)
        ensures
            b == (self.status == ExecutionStatus::Success || self.status == ExecutionStatus::PartialSuccess),
    {
        match self.status {
            ExecutionStatus::Success | ExecutionStatus::PartialSuccess => true,
            _ => false,
        }
    }

    /// How long the run took, in microseconds, once it has completed.
    pub fn duration(&self) -> (d: Option<i128>)
        ensures
            match self.completed_at {
                Some(end) => d == Some((end - self.started_at) as i128),
                None => d is None,
            },
    {
        match self.completed_at {
            Some(end) => Some(end as i128 - self.started_at as i128),
            None => None,
        }
    }
}

/// A tool that agents can use: what it is, the parameters it accepts, its
/// state and how often it ran. Instants are in microseconds since the Unix
/// epoch.
#[derive(Debug)]
pub struct Tool {
    pub id: u128,
    pub name: String,
    pub description: String,
    pub tool_type: ToolType,
    pub parameters: Vec<ToolParameter>,
    pub status: ToolStatus,
    pub usage: ToolUsage,
    pub created_at: i64,
    pub updated_at: i64,
}

impl Tool {
    /// A new available tool without parameters that has never run, with a
    /// fresh random identifier.
    pub fn new(name: String, description: String, tool_type: ToolType) -> (t: Self)
        ensures
            is_random_uuid(t.id),
            t.name@ == name@,
            t.description@ == description@,
            t.tool_type == tool_type,
            t.parameters@.len() == 0,
            t.status == ToolStatus::Available,
            t.usage == ToolUsage::new_spec(),
            t.created_at == t.updated_at,
    {
        let now = now_micros();
        Tool {
            id: new_uuid(),
            name,
            description,
            tool_type,
            parameters: Vec::new(),
            status: ToolStatus::Available,
            usage: ToolUsage::new(),
            created_at: now,
            updated_at: now,
        }
    }

    /// Adds a parameter at the end of the list.
    pub fn add_parameter(&mut self, parameter: ToolParameter)
        ensures
            final(self).parameters@ == old(self).parameters@.push(parameter),
            final(self).id == old(self).id,
            final(self).status == old(self).status,
            final(self).usage == old(self).usage,
            final(self).created_at == old(self).created_at,
    {
        self.parameters.push(parameter);
        self.updated_at = now_micros();
    }

    /// Whether the tool can be used: it is available.
    pub fn is_available(&self) -> (b: bool)
        ensures
            b == (self.status == ToolStatus::Available),
    {
        self.status == ToolStatus::Available
    }

    /// Counts one more run, which gave `result` (see
    /// `ToolUsage::record_execution`), and notes when it happened. The
    /// average run time, a floating-point figure, is kept by the
    /// application layer from `result.metrics.duration_ms`.
    pub fn record_execution(&mut self, result: &ToolResult)
        requires
            old(self).usage.total_executions < u64::MAX,
            old(self).usage.successful_executions < u64::MAX,
            old(self).usage.failed_executions < u64::MAX,
        ensures
            final(self).usage.total_executions == old(self).usage.total_executions + 1,
            final(self).usage.successful_executions == old(self).usage.successful_executions + if result.status
                == ExecutionStatus::Success {
                1int
            } else {
                0int
            },
            final(self).usage.failed_executions == old(self).usage.failed_executions + if result.status
                == ExecutionStatus::Failed {
                1int
            } else {
                0int
            },
            final(self).usage.last_execution is Some,
            final(self).parameters@ == old(self).parameters@,
            final(self).id == old(self).id,
            final(self).status == old(self).status,
            final(self).created_at == old(self).created_at,
    {
        self.usage.record_execution(result.status);
        self.usage.last_execution = Some(now_micros());
        self.updated_at = now_micros();
    }
}

} // verus!
