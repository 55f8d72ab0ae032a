use digital_twin::application::commands::{CommandValidator, CreateAgentCommand, ModelConfig};
use digital_twin::application::events::{
    AgentCreated, ConversationStarted, DigitalTwinCreated, DomainEvent, EventStream, SimulationCompleted,
};
use digital_twin::application::memory_manager::{MemoryConfig, MemoryManager, MemoryStrategy, TokenModel};
use digital_twin::application::agent_rules::{next_history, turn_history};
use digital_twin::traits::llm_client::MessageRole;
use digital_twin::application::tool_validation::{
    tool_run_check,
    execution_failure_text, invocation_text, registration_problem, tool_access_problem, tool_not_found_text,
    tool_output_text,
};
use digital_twin::application::use_cases::{
    check_simulation_params, check_simulation_request, check_simulation_state, simulation_id, simulation_kind, simulation_status, simulation_steps, SimulationKind,
    TwinStatus,
};
use digital_twin::errors::{DomainError, StateTransitionError, ValidationError};
use digital_twin::ids::{AgentId, ConversationId, TwinId};
use digital_twin::json::JsonValue;
use digital_twin::models::conversation::Message;
use digital_twin::models::tool::{
    DiagnosticLevel, ExecutionStatus, FileOperation, ParameterType, Tool, ToolOutput, ToolParameter, ToolResult,
    ToolStatus, ToolType, ToolUsage, ValidationRules,
};

fn invalid_field(r: Result<(), DomainError>) -> (String, String) {
    match r {
        Err(DomainError::Validation(ValidationError::InvalidFormat { field, reason })) => (field, reason),
        other => panic!("unexpected {:?}", other),
    }
}

#[test]
fn a_zero_budget_window_holds_no_message() {
    let config = MemoryConfig {
        max_context_tokens: 0,
        max_messages: 10,
        strategy: MemoryStrategy::SlidingWindow,
        token_model: TokenModel::GPT,
    };
    let manager = MemoryManager::new(config);
    let messages = vec![Message::system(1, "hello there".to_string())];
    let window = manager.build_context_window(&messages);
    assert!(window.messages.is_empty());
    assert_eq!(window.total_tokens, 0);
}

#[test]
fn a_window_never_exceeds_its_budget() {
    let manager = MemoryManager::new(MemoryConfig { max_context_tokens: 2, ..Default::default() });
    let messages = vec![
        Message::system(1, "a".repeat(4)),
        Message::system(1, "b".repeat(40)),
    ];
    let window = manager.build_context_window(&messages);
    assert!(window.messages.is_empty());
    assert!(window.total_tokens <= 2);
}

#[test]
fn every_strategy_gives_the_sliding_window() {
    let messages = vec![
        Message::system(1, "a".repeat(8)),
        Message::from_user(1, "u1".to_string(), "b".repeat(8)),
        Message::from_agent(1, 9, "c".repeat(12), None),
    ];
    let base = MemoryConfig {
        max_context_tokens: 5,
        max_messages: 10,
        strategy: MemoryStrategy::SlidingWindow,
        token_model: TokenModel::GPT,
    };
    let reference = MemoryManager::new(base).build_context_window(&messages);
    for strategy in [MemoryStrategy::Summarization, MemoryStrategy::RAG, MemoryStrategy::Hybrid] {
        let window = MemoryManager::new(MemoryConfig { strategy, ..base }).build_context_window(&messages);
        assert_eq!(window.messages.len(), reference.messages.len());
        assert_eq!(window.total_tokens, reference.total_tokens);
        assert_eq!(window.window_start_index, reference.window_start_index);
        assert_eq!(window.window_end_index, reference.window_end_index);
    }
    assert_eq!(reference.messages.len(), 2);
    assert_eq!(reference.total_tokens, 5);
}

#[test]
fn simulation_requests_are_checked_in_order() {
    let (field, reason) = invalid_field(check_simulation_request(0, 0, TwinStatus::Error));
    assert_eq!(field, "duration_hours");
    assert_eq!(reason, "Simulation duration must be greater than 0");
    let (field, reason) = invalid_field(check_simulation_request(24, 0, TwinStatus::Error));
    assert_eq!(field, "time_step_minutes");
    assert_eq!(reason, "Time step must be greater than 0");
    match check_simulation_request(24, 60, TwinStatus::Error) {
        Err(DomainError::StateTransition(StateTransitionError::PreconditionNotMet { reason })) => {
            assert_eq!(reason, "Cannot run simulation on twin in error state")
        }
        other => panic!("unexpected {:?}", other),
    }
    assert!(check_simulation_request(24, 60, TwinStatus::Active).is_ok());
    assert!(check_simulation_request(1, 1, TwinStatus::Idle).is_ok());
}

#[test]
fn simulation_kinds_ids_and_steps() {
    assert_eq!(simulation_kind("hvac_optimization"), SimulationKind::HvacOptimization);
    assert_eq!(simulation_kind("failure_prediction"), SimulationKind::FailurePrediction);
    assert_eq!(simulation_kind("energy_consumption"), SimulationKind::EnergyConsumption);
    assert_eq!(simulation_kind("weather"), SimulationKind::Generic);
    assert_eq!(
        simulation_id(0x1234, "hvac_optimization", 1_700_000_000),
        "sim_00000000-0000-0000-0000-000000001234_hvac_optimization_1700000000"
    );
    assert_eq!(simulation_id(1, "x", -5), "sim_00000000-0000-0000-0000-000000000001_x_-5");
    assert_eq!(simulation_steps(24, 60), 24);
    assert_eq!(simulation_steps(1, 7), 8);
    assert_eq!(simulation_steps(0, 15), 0);
    assert_eq!(simulation_status(false), TwinStatus::Simulating);
    assert_eq!(simulation_status(true), TwinStatus::Active);
}

fn agent_command(name: &str, instructions: &str, provider: &str, model: &str, max_tokens: Option<u32>) -> CreateAgentCommand {
    CreateAgentCommand {
        name: name.to_string(),
        instructions: instructions.to_string(),
        model_config: ModelConfig { provider: provider.to_string(), model: model.to_string(), max_tokens },
        tool_ids: vec![],
    }
}

#[test]
fn agent_commands_report_every_problem_in_order() {
    let good = agent_command("Helper", "Be brief", "openai", "gpt-4", Some(1000));
    assert_eq!(good.validate(), Ok(()));
    assert!(good.problems(true).is_empty());
    assert_eq!(good.problems(false), vec!["Temperature must be between 0.0 and 2.0".to_string()]);
    let bad = agent_command(" ", "", "\t", "", Some(0));
    assert_eq!(
        bad.validate(),
        Err(vec![
            "Agent name cannot be empty".to_string(),
            "Agent instructions cannot be empty".to_string(),
            "Model provider cannot be empty".to_string(),
            "Model name cannot be empty".to_string(),
            "Max tokens must be greater than 0".to_string(),
        ])
    );
    let unbounded = agent_command("Helper", "Be brief", "openai", "gpt-4", None);
    assert_eq!(unbounded.validate(), Ok(()));
}

#[test]
fn domain_events_name_their_type_and_aggregate() {
    let agent = AgentCreated {
        event_id: "e1".to_string(),
        agent_id: AgentId::from_uuid(0xabc),
        name: "Helper".to_string(),
        model_provider: "openai".to_string(),
        model_name: "gpt-4".to_string(),
        occurred_at: 42,
    };
    assert_eq!(agent.event_type(), "agent.created");
    assert_eq!(agent.event_id(), "e1");
    assert_eq!(agent.occurred_at(), 42);
    assert_eq!(agent.aggregate_id(), "00000000-0000-0000-0000-000000000abc");
    let started = ConversationStarted {
        event_id: "e2".to_string(),
        conversation_id: ConversationId::from_uuid(7),
        agent_id: AgentId::from_uuid(8),
        initial_context: None,
        occurred_at: 1,
    };
    assert_eq!(started.event_type(), "conversation.started");
    assert_eq!(started.aggregate_id(), "00000000-0000-0000-0000-000000000007");
    let created = DigitalTwinCreated {
        event_id: "e3".to_string(),
        twin_id: TwinId::from_uuid(u128::MAX),
        name: "Pump".to_string(),
        twin_type: "pump".to_string(),
        tags: vec![],
        occurred_at: 2,
    };
    assert_eq!(created.event_type(), "digital_twin.created");
    assert_eq!(created.aggregate_id(), "ffffffff-ffff-ffff-ffff-ffffffffffff");
}

#[test]
fn tool_access_and_messages() {
    let tools = vec!["calculator".to_string(), "search".to_string()];
    assert_eq!(tool_access_problem(&tools, "search"), None);
    assert_eq!(
        tool_access_problem(&tools, "shell"),
        Some("Agent does not have access to tool: shell".to_string())
    );
    assert_eq!(
        tool_access_problem(&vec![], "search"),
        Some("Agent does not have access to tool: search".to_string())
    );
    assert_eq!(
        invocation_text("calculator", r#"{"x":1}"#),
        r#"Executing tool 'calculator' with parameters: {"x":1}"#
    );
    assert_eq!(tool_not_found_text("calc"), "Tool not found: calc");
    assert_eq!(execution_failure_text("boom"), "Tool execution failed: boom");
    assert_eq!(tool_output_text(&JsonValue::String("42".to_string()), "\"42\""), "42");
    assert_eq!(tool_output_text(&JsonValue::Bool(true), "true"), "true");
}

#[test]
fn tool_registrations_are_refused_in_order() {
    let required = vec!["a".to_string(), "b".to_string()];
    let types = vec![("a".to_string(), "string".to_string())];
    assert_eq!(
        registration_problem(" ", "", true, &required, &types),
        Some("Tool name cannot be empty".to_string())
    );
    assert_eq!(
        registration_problem("calc", "  ", true, &required, &types),
        Some("Tool description cannot be empty".to_string())
    );
    assert_eq!(
        registration_problem("calc", "Adds", true, &required, &types),
        Some("Tool with name 'calc' already exists".to_string())
    );
    assert_eq!(
        registration_problem("calc", "Adds", false, &required, &types),
        Some("Type not specified for required parameter 'b'".to_string())
    );
    let all_typed = vec![("b".to_string(), "number".to_string()), ("a".to_string(), "string".to_string())];
    assert_eq!(registration_problem("calc", "Adds", false, &required, &all_typed), None);
}

#[test]
fn tool_usage_counts_runs() {
    let mut usage = ToolUsage::new();
    usage.record_execution(ExecutionStatus::Success);
    usage.record_execution(ExecutionStatus::Failed);
    usage.record_execution(ExecutionStatus::Timeout);
    assert_eq!(usage.total_executions, 3);
    assert_eq!(usage.successful_executions, 1);
    assert_eq!(usage.failed_executions, 1);
    let mut tool = Tool::new(
        "calculator".to_string(),
        "Adds numbers".to_string(),
        ToolType::ModelInference { model_type: "math".to_string(), model_id: "m1".to_string() },
    );
    assert!(tool.is_available());
    assert_eq!(tool.usage, ToolUsage::new());
    tool.add_parameter(ToolParameter {
        name: "x".to_string(),
        description: "first".to_string(),
        param_type: ParameterType::Integer,
        required: true,
        default_value: None,
        validation: None,
    });
    assert_eq!(tool.parameters.len(), 1);
    assert_eq!(tool.parameters[0].name, "x");
    tool.record_execution(&ToolResult::failure(tool.id, "boom".to_string()));
    assert_eq!(tool.usage.total_executions, 1);
    assert_eq!(tool.usage.failed_executions, 1);
    assert!(tool.usage.last_execution.is_some());
    tool.status = ToolStatus::Maintenance;
    assert!(!tool.is_available());
    let mut partial = ToolResult::success(tool.id, ToolOutput::Void);
    partial.status = ExecutionStatus::PartialSuccess;
    assert!(partial.is_success());
    assert_eq!(partial.duration(), Some(0));
    partial.completed_at = None;
    assert_eq!(partial.duration(), None);
}

#[test]
fn event_streams_hand_over_their_events_in_order() {
    let event = |n: u128| SimulationCompleted {
        event_id: format!("e{}", n),
        twin_id: TwinId::from_uuid(n),
        simulation_id: "sim".to_string(),
        simulation_type: "generic".to_string(),
        success: true,
        key_metrics: vec![("simulation_steps".to_string(), "24.0".to_string())],
        recommendations_count: 1,
        execution_time_ms: 5,
        occurred_at: 0,
    };
    let mut stream = EventStream::new();
    assert!(stream.is_empty());
    stream.append(event(1));
    stream.append(event(2));
    assert_eq!(stream.len(), 2);
    let taken = stream.take_events();
    assert!(stream.is_empty());
    assert_eq!(taken.len(), 2);
    assert_eq!(taken[0].event_id(), "e1");
    assert_eq!(taken[1].event_type(), "simulation.completed");
    assert_eq!(taken[1].aggregate_id(), "00000000-0000-0000-0000-000000000002");
}

#[test]
fn test_tool_creation() {
    let tool = Tool::new(
        "File Reader".to_string(),
        "Reads content from files".to_string(),
        ToolType::FileSystem { allowed_operations: vec![FileOperation::Read], allowed_paths: vec!["/tmp".to_string()] },
    );
    assert_eq!(tool.name, "File Reader");
    assert!(tool.is_available());
    assert_eq!(tool.parameters.len(), 0);
    assert_eq!(tool.usage.total_executions, 0);
}

#[test]
fn test_tool_parameter() {
    let mut tool = Tool::new(
        "Test Tool".to_string(),
        "Description".to_string(),
        ToolType::Custom { category: "test".to_string(), capabilities: vec![] },
    );
    let param = ToolParameter {
        name: "input_file".to_string(),
        description: "Path to input file".to_string(),
        param_type: ParameterType::FilePath,
        required: true,
        default_value: None,
        validation: Some(ValidationRules {
            min: None,
            max: None,
            min_length: Some(1),
            max_length: Some(255),
            pattern: Some(r"^[a-zA-Z0-9./\-_]+$".to_string()),
            custom_validator: None,
        }),
    };
    tool.add_parameter(param);
    assert_eq!(tool.parameters.len(), 1);
    assert_eq!(tool.parameters[0].name, "input_file");
    assert!(tool.parameters[0].required);
}

#[test]
fn test_tool_result_success() {
    let tool_id = uuid::Uuid::new_v4().as_u128();
    let result = ToolResult::success(tool_id, ToolOutput::Text("Operation completed".to_string()));
    assert!(result.is_success());
    assert_eq!(result.status, ExecutionStatus::Success);
    assert!(matches!(result.output, ToolOutput::Text(_)));
    assert!(result.completed_at.is_some());
}

#[test]
fn test_tool_result_failure() {
    let tool_id = uuid::Uuid::new_v4().as_u128();
    let result = ToolResult::failure(tool_id, "Network timeout".to_string());
    assert!(!result.is_success());
    assert_eq!(result.status, ExecutionStatus::Failed);
    assert!(matches!(result.output, ToolOutput::Error { .. }));
    assert_eq!(result.diagnostics.len(), 1);
    assert_eq!(result.diagnostics[0].level, DiagnosticLevel::Error);
}

#[test]
fn test_record_execution() {
    let mut tool = Tool::new(
        "Test".to_string(),
        "Test tool".to_string(),
        ToolType::Custom { category: "test".to_string(), capabilities: vec![] },
    );
    let result = ToolResult::success(tool.id, ToolOutput::Void);
    tool.record_execution(&result);
    assert_eq!(tool.usage.total_executions, 1);
    assert_eq!(tool.usage.successful_executions, 1);
    assert_eq!(tool.usage.failed_executions, 0);
    assert!(tool.usage.last_execution.is_some());
}

#[test]
fn tool_runs_are_refused_in_order() {
    let agent_tools = vec!["calc".to_string()];
    let required = vec!["x".to_string()];
    let types = vec![("x".to_string(), "number".to_string())];
    let good = vec![("x".to_string(), JsonValue::Number("1".to_string()))];
    let missing: Vec<(String, JsonValue)> = vec![];
    assert_eq!(
        tool_run_check(&agent_tools, "shell", None, &missing),
        Err("Agent does not have access to tool: shell".to_string())
    );
    assert_eq!(tool_run_check(&agent_tools, "calc", None, &good), Err("Tool not found: calc".to_string()));
    assert_eq!(
        tool_run_check(&agent_tools, "calc", Some((&required, &types)), &missing),
        Err("Missing required parameter: x".to_string())
    );
    assert_eq!(tool_run_check(&agent_tools, "calc", Some((&required, &types)), &good), Ok(()));
}

#[test]
fn a_turn_extends_the_history_only_when_the_model_answers() {
    let history = vec![(MessageRole::User, "hi".to_string()), (MessageRole::Assistant, "hello".to_string())];
    assert_eq!(
        turn_history(&history, "how are you?"),
        vec![
            (MessageRole::User, "hi".to_string()),
            (MessageRole::Assistant, "hello".to_string()),
            (MessageRole::User, "how are you?".to_string()),
        ]
    );
    assert_eq!(
        next_history(&history, "how are you?", &Ok("fine".to_string())),
        vec![
            (MessageRole::User, "hi".to_string()),
            (MessageRole::Assistant, "hello".to_string()),
            (MessageRole::User, "how are you?".to_string()),
            (MessageRole::Assistant, "fine".to_string()),
        ]
    );
    assert_eq!(next_history(&history, "how are you?", &Err("offline".to_string())), history);
}

#[test]
fn simulation_parameters_are_checked_before_the_twin() {
    let (field, _) = invalid_field(check_simulation_params(0, 10));
    assert_eq!(field, "duration_hours");
    let (field, _) = invalid_field(check_simulation_params(5, 0));
    assert_eq!(field, "time_step_minutes");
    assert!(check_simulation_params(5, 10).is_ok());
    assert!(check_simulation_state(TwinStatus::Error).is_err());
    assert!(check_simulation_state(TwinStatus::Simulating).is_ok());
}
