//! Execution options, validation reports and resource accounting of tool
//! executors.

use vstd::prelude::*;
use crate::json::JsonValue;

verus! {

/// What the caller of a tool may do.
#[derive(Debug, Clone)]
pub struct SecurityContext {
    pub auth_token: Option<String>,
    pub permissions: Vec<String>,
    pub ip_address: Option<String>,
    pub labels: Vec<(String, String)>,
}

/// How urgently a tool runs; later variants are more urgent.
#[derive(Debug, Clone, Copy, PartialEq, Eq, PartialOrd, Ord, Hash)]
pub enum ExecutionPriority {
    Low,
    Normal,
    High,
    Critical,
}

impl Default for ExecutionPriority {
    /// Normal priority.
    fn default() -> (p: Self)
        ensures
            p == ExecutionPriority::Normal,
    {
        ExecutionPriority::Normal
    }
}

/// How a tool's output is to be delivered.
#[derive(Debug, Clone, Copy)]
pub struct OutputPreferences {
    pub format: PreferredFormat,
    pub include_metadata: bool,
    pub pretty_json: bool,
    pub max_size_bytes: Option<u64>,
}

impl Default for OutputPreferences {
    /// Any format, no metadata, compact JSON, no size limit.
    fn default() -> (p: Self)
        ensures
            p.format == PreferredFormat::Auto,
            !p.include_metadata,
            !p.pretty_json,
            p.max_size_bytes is None,
    {
        OutputPreferences { format: PreferredFormat::Auto, include_metadata: false, pretty_json: false, max_size_bytes: None }
    }
}

/// Output formats.
#[derive(Debug, Clone, Copy, PartialEq, Eq)]
pub enum PreferredFormat {
    Text,
    Json,
    Yaml,
    Xml,
    Binary,
    Auto,
}

/// A problem with one parameter.
#[derive(Debug, Clone)]
pub struct ValidationError {
    pub parameter: String,
    pub code: String,
    pub message: String,
    pub expected: Option<String>,
    pub actual: Option<String>,
}

/// A doubtful parameter.
#[derive(Debug, Clone)]
pub struct ValidationWarning {
    pub parameter: String,
    pub code: String,
    pub message: String,
    pub suggestion: Option<String>,
}

/// The outcome of checking a tool's parameters.
#[derive(Debug)]
pub struct ValidationResult {
    pub valid: bool,
    pub errors: Vec<ValidationError>,
    pub warnings: Vec<ValidationWarning>,
    pub normalized_parameters: Option<Vec<(String, JsonValue)>>,
}

/// Resources a run has used.
#[derive(Debug, Clone, Copy)]
pub struct ResourceUsage {
    pub memory_bytes: u64,
    pub cpu_ms: u64,
    pub disk_io_bytes: u64,
    pub network_io_bytes: u64,
}

impl Default for ResourceUsage {
    /// Nothing used yet.
    fn default() -> (u: Self)
        ensures
            u.memory_bytes == 0,
            u.cpu_ms == 0,
            u.disk_io_bytes == 0,
            u.network_io_bytes == 0,
    {
        ResourceUsage { memory_bytes: 0, cpu_ms: 0, disk_io_bytes: 0, network_io_bytes: 0 }
    }
}

/// Resources a tool needs.
#[derive(Debug, Clone)]
pub struct ResourceRequirements {
    pub min_memory_bytes: Option<u64>,
    pub estimated_cpu_ms: Option<u64>,
    pub requires_network: bool,
    pub requires_filesystem: bool,
    pub other: Vec<(String, String)>,
}

/// Log levels; later variants are more severe.
#[derive(Debug, Clone, Copy, PartialEq, Eq, PartialOrd, Ord)]
pub enum LogLevel {
    Trace,
    Debug,
    Info,
    Warning,
    Error,
}

} // verus!
