use digital_twin::json::JsonValue;
use digital_twin::traits::llm_client::{LLMError, TokenUsage};
use digital_twin::traits::repository::{FilterCriteria, FilterOperator, Pagination, RepositoryError};
use digital_twin::traits::tool_executor::{
    ExecutionPriority, OutputPreferences, PreferredFormat, ResourceUsage, ValidationError, ValidationResult,
};

#[test]
fn test_token_usage() {
    let usage = TokenUsage { prompt_tokens: 10, completion_tokens: 20, total_tokens: 30, cached_tokens: Some(5) };
    assert_eq!(usage.prompt_tokens + usage.completion_tokens, usage.total_tokens);
}

#[test]
fn test_filter_criteria_creation() {
    let filter = FilterCriteria {
        field: "name".to_string(),
        operator: FilterOperator::Contains,
        value: JsonValue::String("test".to_string()),
    };
    assert_eq!(filter.field, "name");
    assert_eq!(filter.operator, FilterOperator::Contains);
}

#[test]
fn test_pagination_default() {
    let pagination = Pagination::default();
    assert_eq!(pagination.offset, 0);
    assert_eq!(pagination.limit, 50);
}

#[test]
fn test_repository_error_display() {
    let error = RepositoryError::NotFound { entity_type: "Agent".to_string(), id: "123".to_string() };
    assert_eq!(error.to_string(), "Entity not found: Agent with id 123");
}

#[test]
fn repository_error_messages() {
    assert_eq!(
        RepositoryError::AlreadyExists { entity_type: "Tool".to_string(), id: "9".to_string() }.to_string(),
        "Entity already exists: Tool with id 9"
    );
    assert_eq!(RepositoryError::Other("x".to_string()).to_string(), "Repository error: x");
}

#[test]
fn llm_error_messages() {
    assert_eq!(
        LLMError::TokenLimitExceeded { used: 5000, limit: 4096 }.to_string(),
        "Token limit exceeded: used 5000, limit 4096"
    );
    assert_eq!(LLMError::Timeout(30).to_string(), "Request timeout after 30 seconds");
    assert_eq!(
        LLMError::ProviderError { provider: "openai".to_string(), message: "down".to_string() }.to_string(),
        "Provider error: openai - down"
    );
    assert_eq!(
        LLMError::RateLimitError { message: "slow down".to_string(), retry_after: Some(3) }.to_string(),
        "Rate limit exceeded: slow down"
    );
}

#[test]
fn test_validation_result() {
    let result = ValidationResult {
        valid: false,
        errors: vec![ValidationError {
            parameter: "timeout".to_string(),
            code: "INVALID_TYPE".to_string(),
            message: "Expected number, got string".to_string(),
            expected: Some("number".to_string()),
            actual: Some("string".to_string()),
        }],
        warnings: vec![],
        normalized_parameters: None,
    };
    assert!(!result.valid);
    assert_eq!(result.errors.len(), 1);
    assert_eq!(result.errors[0].parameter, "timeout");
}

#[test]
fn test_execution_priority_ordering() {
    assert!(ExecutionPriority::Low < ExecutionPriority::Normal);
    assert!(ExecutionPriority::Normal < ExecutionPriority::High);
    assert!(ExecutionPriority::High < ExecutionPriority::Critical);
}

#[test]
fn executor_defaults() {
    assert_eq!(ExecutionPriority::default(), ExecutionPriority::Normal);
    let p = OutputPreferences::default();
    assert_eq!(p.format, PreferredFormat::Auto);
    assert!(!p.include_metadata && !p.pretty_json && p.max_size_bytes.is_none());
    let u = ResourceUsage::default();
    assert_eq!(u.memory_bytes + u.cpu_ms + u.disk_io_bytes + u.network_io_bytes, 0);
}
