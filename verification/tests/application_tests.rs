use digital_twin::application::events::{AnomalyDetectedBuilder, AnomalySeverity};
use digital_twin::ids::TwinId;
use digital_twin::application::prompt_manager::compare_versions;
use digital_twin::application::queries::{FilterOperator, PropertyFilter};
use digital_twin::application::memory_manager::{MemoryConfig, MemoryManager, MemoryStrategy, TokenModel};
use digital_twin::application::prompt_manager::{increment_version, is_valid_version, PromptManager, VersionedPrompt};
use digital_twin::application::dtos::{create_paginated_response, pagination_to_offset_limit, PaginationRequestDto};
use digital_twin::application::queries::{PaginationParams, SortOrder, TwinQueryBuilder, TwinSortField};
use digital_twin::application::tool_validation::{first_parameter_error, ToolValidationResult};
use digital_twin::application::use_cases::{
    plan_sync, sensor_property_name, status_after_sync, sync_needed, CreateTwinCommand, CreateTwinUseCase,
    SensorSnapshot, TwinStatus,
};
use digital_twin::json::JsonValue;
use digital_twin::models::conversation::Message;

fn prompt(agent_id: u128, version: &str, system_prompt: &str, instructions: Option<&str>) -> VersionedPrompt {
    VersionedPrompt {
        id: uuid::Uuid::new_v4().as_u128(),
        agent_id,
        version: version.to_string(),
        system_prompt: system_prompt.to_string(),
        instructions: instructions.map(|s| s.to_string()),
        created_at: 0,
        updated_at: 0,
    }
}

#[test]
fn test_token_estimation() {
    let config = MemoryConfig::default();
    let manager = MemoryManager::new(config);
    let text = "Hello, this is a test message.";
    let tokens = manager.estimate_tokens(text);
    assert!(tokens > 0);
}

#[test]
fn test_gpt_token_estimation() {
    let config = MemoryConfig { token_model: TokenModel::GPT, ..Default::default() };
    let manager = MemoryManager::new(config);
    let text = "a".repeat(100);
    let tokens = manager.estimate_gpt_tokens(&text);
    assert_eq!(tokens, 25);
}

#[test]
fn test_remaining_capacity() {
    let config = MemoryConfig { max_context_tokens: 1000, ..Default::default() };
    let manager = MemoryManager::new(config);
    assert_eq!(manager.remaining_capacity(500), 500);
    assert_eq!(manager.remaining_capacity(1000), 0);
    assert_eq!(manager.remaining_capacity(1500), 0);
}

#[test]
fn test_would_exceed_limit() {
    let config = MemoryConfig { max_context_tokens: 1000, ..Default::default() };
    let manager = MemoryManager::new(config);
    assert!(!manager.would_exceed_limit(500, 400));
    assert!(manager.would_exceed_limit(500, 600));
    assert!(manager.would_exceed_limit(1000, 1));
}

#[test]
fn token_estimates_round_up() {
    let manager = MemoryManager::new(MemoryConfig::default());
    assert_eq!(manager.estimate_gpt_tokens("abcde"), 2);
    assert_eq!(manager.estimate_claude_tokens("abcdefgh"), 3);
    assert_eq!(manager.estimate_generic_tokens(""), 0);
    assert_eq!(manager.estimate_generic_tokens("é"), 1);
}

#[test]
fn sliding_window_keeps_the_newest_messages_in_order() {
    let config = MemoryConfig {
        max_context_tokens: 4,
        max_messages: 10,
        strategy: MemoryStrategy::SlidingWindow,
        token_model: TokenModel::GPT,
    };
    let manager = MemoryManager::new(config);
    let messages = vec![
        Message::system(1, "a".repeat(8)),
        Message::from_user(1, "u1".to_string(), "b".repeat(8)),
        Message::from_agent(1, 9, "c".repeat(12), None),
    ];
    let window = manager.build_context_window(&messages);
    assert_eq!(window.messages.len(), 1);
    assert_eq!(window.total_tokens, 3);
    assert_eq!(window.window_start_index, 2);
    assert_eq!(window.window_end_index, 3);
    assert_eq!(window.messages[0].sender, "agent:00000000-0000-0000-0000-000000000009");

    let roomy = MemoryManager::new(MemoryConfig { max_context_tokens: 100, ..Default::default() });
    let window = roomy.build_context_window(&messages);
    assert_eq!(window.messages.len(), 3);
    assert_eq!(window.total_tokens, 7);
    assert_eq!(window.window_start_index, 0);
    assert_eq!(window.messages[0].sender, "system");
    assert_eq!(window.messages[1].sender, "user:u1");
}

#[test]
fn token_stats_split_by_sender() {
    let manager = MemoryManager::new(MemoryConfig::default());
    let messages = vec![
        Message::from_user(1, "u".to_string(), "a".repeat(8)),
        Message::from_user(1, "u".to_string(), "a".repeat(4)),
        Message::system(1, "a".repeat(4)),
    ];
    let stats = manager.calculate_token_stats(&messages);
    assert_eq!(stats.total_tokens, 4);
    assert_eq!(stats.message_count, 3);
    assert_eq!(stats.avg_tokens_per_message, 1);
    let user = stats.tokens_by_sender.iter().find(|(k, _)| k == "user").unwrap();
    assert_eq!(user.1, 3);
}

#[test]
fn test_store_and_retrieve_prompt() {
    let mut manager = PromptManager::new();
    let agent_id = uuid::Uuid::new_v4().as_u128();
    let p = prompt(agent_id, "1.0.0", "You are a helpful assistant.", Some("Be concise and clear."));

    let stored = manager.store_prompt(p.clone()).unwrap();
    assert_eq!(stored.version, "1.0.0");

    let retrieved = manager.get_prompt(agent_id, "1.0.0").unwrap();
    assert_eq!(retrieved.system_prompt, "You are a helpful assistant.");
}

#[test]
fn test_duplicate_version_error() {
    let mut manager = PromptManager::new();
    let agent_id = uuid::Uuid::new_v4().as_u128();
    manager.store_prompt(prompt(agent_id, "1.0.0", "Prompt 1", None)).unwrap();
    assert!(manager.store_prompt(prompt(agent_id, "1.0.0", "Prompt 2", None)).is_err());
}

#[test]
fn test_get_latest_prompt() {
    let mut manager = PromptManager::new();
    let agent_id = uuid::Uuid::new_v4().as_u128();
    manager.store_prompt(prompt(agent_id, "1.0.0", "Prompt 1", None)).unwrap();
    manager.store_prompt(prompt(agent_id, "2.0.0", "Prompt 2", None)).unwrap();
    let latest = manager.get_latest_prompt(agent_id).unwrap();
    assert_eq!(latest.version, "2.0.0");
}

#[test]
fn test_version_validation() {
    let _manager = PromptManager::new();
    assert!(is_valid_version("1.0.0"));
    assert!(is_valid_version("2.5.10"));
    assert!(!is_valid_version("1.0"));
    assert!(!is_valid_version("1.0.0.0"));
    assert!(!is_valid_version("a.b.c"));
}

#[test]
fn test_version_increment() {
    let _manager = PromptManager::new();
    let incremented = increment_version("1.0.0").unwrap();
    assert_eq!(incremented, "1.0.1");
    let incremented = increment_version("2.5.10").unwrap();
    assert_eq!(incremented, "2.5.11");
}

#[test]
fn test_update_prompt_tracks_changes() {
    let mut manager = PromptManager::new();
    let agent_id = uuid::Uuid::new_v4().as_u128();
    manager.store_prompt(prompt(agent_id, "1.0.0", "Old prompt", Some("Old instructions"))).unwrap();

    manager
        .update_prompt(agent_id, "1.0.1".to_string(), "New prompt".to_string(), Some("New instructions".to_string()))
        .unwrap();

    let history = manager.get_change_history(agent_id).unwrap();
    assert_eq!(history.len(), 1);
    assert_eq!(history[0].from_version, "1.0.0");
    assert_eq!(history[0].to_version, "1.0.1");
    assert_eq!(history[0].changes.len(), 2);
}

#[test]
fn latest_prompt_follows_numeric_order() {
    let mut manager = PromptManager::new();
    manager.store_prompt(prompt(5, "1.10.0", "ten", None)).unwrap();
    manager.store_prompt(prompt(5, "1.9.0", "nine", None)).unwrap();
    assert_eq!(manager.get_latest_prompt(5).unwrap().version, "1.10.0");
    let all = manager.get_all_prompts(5).unwrap();
    assert_eq!(all[0].version, "1.9.0");
    assert_eq!(all[1].version, "1.10.0");
    assert!(manager.get_prompt(5, "3.0.0").is_err());
    assert!(manager.store_prompt(prompt(5, "1.x", "bad", None)).is_err());
}

#[test]
fn revert_creates_a_new_version_with_old_content() {
    let mut manager = PromptManager::new();
    manager.store_prompt(prompt(8, "1.0.0", "first", None)).unwrap();
    manager.update_prompt(8, "2.0.0".to_string(), "second".to_string(), None).unwrap();
    let reverted = manager.revert_to_version(8, "1.0.0").unwrap();
    assert_eq!(reverted.version, "1.0.1");
    assert_eq!(reverted.system_prompt, "first");
    assert_eq!(manager.get_latest_prompt(8).unwrap().version, "2.0.0");
    assert!(manager.revert_to_version(8, "1.0.0").is_err());
}

#[test]
fn pagination_offsets() {
    let p = PaginationRequestDto { page: 3, page_size: 20, sort_by: None, sort_order: None };
    assert_eq!(pagination_to_offset_limit(&p), (40, 20));
    let params = PaginationParams::default();
    assert_eq!(params.page, 1);
    assert_eq!(params.offset(), 0);
    assert_eq!(params.limit(), 20);
}

#[test]
fn paginated_response_counts_pages() {
    let r = create_paginated_response(vec![1, 2, 3], 45, 1, 20);
    assert_eq!(r.total_pages, 3);
    assert_eq!(r.items, vec![1, 2, 3]);
    assert_eq!(create_paginated_response(Vec::<u8>::new(), 40, 1, 20).total_pages, 2);
    assert_eq!(create_paginated_response(Vec::<u8>::new(), 0, 1, 20).total_pages, 0);
    assert_eq!(create_paginated_response(Vec::<u8>::new(), 0, 1, 0).total_pages, 0);
    assert_eq!(create_paginated_response(Vec::<u8>::new(), 5, 1, 0).total_pages, u32::MAX);
}

#[test]
fn twin_query_builder_collects_settings() {
    let q = TwinQueryBuilder::new()
        .with_type("hvac".to_string())
        .with_tags(vec!["roof".to_string()])
        .sort_by(TwinSortField::Name, SortOrder::Desc)
        .paginate(10, 30)
        .build();
    assert_eq!(q.twin_type.as_deref(), Some("hvac"));
    assert_eq!(q.tag_filter, Some(vec!["roof".to_string()]));
    assert_eq!(q.status_filter, None);
    assert_eq!(q.sort_by, Some(TwinSortField::Name));
    assert_eq!(q.sort_order, Some(SortOrder::Desc));
    assert_eq!(q.limit, Some(10));
    assert_eq!(q.offset, Some(30));
}

fn declared() -> (Vec<String>, Vec<(String, String)>) {
    (
        vec!["required_param".to_string()],
        vec![
            ("required_param".to_string(), "string".to_string()),
            ("optional_param".to_string(), "number".to_string()),
        ],
    )
}

#[test]
fn test_validate_tool_parameters() {
    let (required, types) = declared();
    let mut parameters = vec![("optional_param".to_string(), JsonValue::Number("42".to_string()))];
    let result = ToolValidationResult::check(&required, &types, &parameters);
    assert!(!result.is_valid);
    assert_eq!(result.errors.len(), 1);

    parameters.push(("required_param".to_string(), JsonValue::String("test".to_string())));
    let result = ToolValidationResult::check(&required, &types, &parameters);
    assert!(result.is_valid);
    assert_eq!(result.errors.len(), 0);
}

#[test]
fn tool_parameter_messages() {
    let (required, types) = declared();
    let parameters = vec![
        ("optional_param".to_string(), JsonValue::String("x".to_string())),
        ("extra".to_string(), JsonValue::Null),
    ];
    let result = ToolValidationResult::check(&required, &types, &parameters);
    assert_eq!(
        result.errors,
        vec![
            "Missing required parameter: required_param".to_string(),
            "Invalid type for parameter 'optional_param'. Expected: number".to_string(),
        ]
    );
    assert_eq!(result.warnings, vec!["Unknown parameter: extra".to_string()]);

    assert_eq!(
        first_parameter_error(&required, &types, &parameters),
        Some("Missing required parameter: required_param".to_string())
    );
    let parameters = vec![
        ("required_param".to_string(), JsonValue::Bool(true)),
        ("optional_param".to_string(), JsonValue::Number("1".to_string())),
    ];
    assert_eq!(
        first_parameter_error(&required, &types, &parameters),
        Some("Invalid type for parameter 'required_param'. Expected: string, Got: boolean".to_string())
    );
    let parameters = vec![("required_param".to_string(), JsonValue::String("ok".to_string()))];
    assert_eq!(first_parameter_error(&required, &types, &parameters), None);
}

fn command(name: &str, twin_type: &str) -> CreateTwinCommand {
    CreateTwinCommand {
        name: name.to_string(),
        description: None,
        twin_type: twin_type.to_string(),
        initial_properties: vec![],
        tags: vec![],
    }
}

#[test]
fn test_create_twin_empty_name_fails() {
    let use_case = CreateTwinUseCase::new();
    assert_eq!(use_case.validate(&command("", "test")), Err("Twin name cannot be empty".to_string()));
}

#[test]
fn test_create_twin_empty_type_fails() {
    let use_case = CreateTwinUseCase::new();
    assert_eq!(use_case.validate(&command("Test Twin", "")), Err("Twin type cannot be empty".to_string()));
}

#[test]
fn create_twin_accepts_named_typed_commands() {
    let use_case = CreateTwinUseCase::new();
    assert_eq!(use_case.validate(&command("HVAC System Twin", "hvac_system")), Ok(()));
    assert!(use_case.validate(&command("   ", "hvac")).is_err());
}

#[test]
fn test_sync_twin_skip_recent_sync() {
    assert!(!sync_needed(false, 30, TwinStatus::Active));
    assert!(sync_needed(true, 30, TwinStatus::Active));
    assert!(sync_needed(false, 30, TwinStatus::Error));
    assert!(sync_needed(false, 60, TwinStatus::Idle));
}

#[test]
fn test_sync_twin_with_sensor_data() {
    // The twin was last updated five minutes ago, so a sync is due.
    assert!(sync_needed(false, 5 * 60, TwinStatus::Idle));
    let sensors = vec![
        SensorSnapshot {
            sensor_name: "temp_sensor".to_string(),
            sensor_type: "temperature".to_string(),
            latest_value: Some(serde_json::Value::from(25.5).to_string()),
            latest_alert: false,
        },
        SensorSnapshot {
            sensor_name: "humidity_sensor".to_string(),
            sensor_type: "humidity".to_string(),
            latest_value: Some(serde_json::Value::from(65.0).to_string()),
            latest_alert: false,
        },
    ];
    let plan = plan_sync(&sensors);
    assert_eq!(plan.new_readings.len(), 2);
    assert_eq!(plan.updated_properties.len(), 2);
    assert!(plan.updated_properties.iter().any(|(k, _)| k == "current_temperature"));
    assert!(plan.updated_properties.iter().any(|(k, _)| k == "current_humidity"));
    assert_eq!(plan.status, TwinStatus::Active);
    let stored: Vec<&String> = plan.new_readings.iter().map(|(name, _)| name).collect();
    assert_eq!(stored.len(), 2);
}

#[test]
fn sync_plan_keeps_the_latest_readings_in_order() {
    let sensors = vec![
        SensorSnapshot {
            sensor_name: "t1".to_string(),
            sensor_type: "temperature".to_string(),
            latest_value: Some("21.5".to_string()),
            latest_alert: false,
        },
        SensorSnapshot {
            sensor_name: "flow".to_string(),
            sensor_type: "flow".to_string(),
            latest_value: Some("3".to_string()),
            latest_alert: false,
        },
        SensorSnapshot {
            sensor_name: "h1".to_string(),
            sensor_type: "humidity".to_string(),
            latest_value: None,
            latest_alert: true,
        },
        SensorSnapshot {
            sensor_name: "t2".to_string(),
            sensor_type: "temperature".to_string(),
            latest_value: Some("22.0".to_string()),
            latest_alert: false,
        },
    ];
    let plan = plan_sync(&sensors);
    assert_eq!(
        plan.new_readings,
        vec![
            ("t1".to_string(), "21.5".to_string()),
            ("flow".to_string(), "3".to_string()),
            ("t2".to_string(), "22.0".to_string()),
        ]
    );
    assert_eq!(plan.status, TwinStatus::Active);
    assert_eq!(
        plan.updated_properties,
        vec![
            ("current_temperature".to_string(), "22.0".to_string()),
            ("sensor_flow".to_string(), "3".to_string()),
        ]
    );
    assert_eq!(sensor_property_name("pressure", "p"), "current_pressure");
    assert_eq!(status_after_sync(true, 0), TwinStatus::Error);
    assert_eq!(status_after_sync(false, 0), TwinStatus::Idle);

    let alarmed = vec![SensorSnapshot {
        sensor_name: "p".to_string(),
        sensor_type: "pressure".to_string(),
        latest_value: Some("1.2".to_string()),
        latest_alert: true,
    }];
    assert_eq!(plan_sync(&alarmed).status, TwinStatus::Error);
    assert_eq!(plan_sync(&vec![]).status, TwinStatus::Idle);
}

use digital_twin::application::agent_rules::{
    add_tool, prompt_messages, remove_tool, validate_agent_text, validate_agent_update,
};
use digital_twin::traits::llm_client::MessageRole;

#[test]
fn agent_text_rules() {
    assert_eq!(validate_agent_text("Helper", "Be kind"), Ok(()));
    assert_eq!(validate_agent_text(" ", "Be kind"), Err("Agent name cannot be empty".to_string()));
    assert_eq!(validate_agent_text("Helper", "\t"), Err("Agent instructions cannot be empty".to_string()));
    assert_eq!(validate_agent_update(&None, &None), Ok(()));
    assert_eq!(
        validate_agent_update(&Some("".to_string()), &Some("".to_string())),
        Err("Agent name cannot be empty".to_string())
    );
    assert_eq!(
        validate_agent_update(&None, &Some(" ".to_string())),
        Err("Agent instructions cannot be empty".to_string())
    );
}

#[test]
fn removing_a_tool_undoes_adding_it() {
    let mut tools = vec![1u128, 2];
    assert_eq!(add_tool(&mut tools, 3), Ok(()));
    assert_eq!(tools, vec![1, 2, 3]);
    assert_eq!(add_tool(&mut tools, 2), Err("Agent already has this tool".to_string()));
    assert_eq!(tools, vec![1, 2, 3]);
    assert_eq!(remove_tool(&mut tools, 3), Ok(()));
    assert_eq!(tools, vec![1, 2]);
    assert_eq!(remove_tool(&mut tools, 9), Err("Agent does not have this tool".to_string()));
    let mut doubled = vec![4u128, 5, 4];
    assert_eq!(remove_tool(&mut doubled, 4), Ok(()));
    assert_eq!(doubled, vec![5]);
}

#[test]
fn turn_messages_lead_with_instructions_and_context() {
    let history = vec![(MessageRole::User, "hi".to_string())];
    let msgs = prompt_messages("Be brief", &Some("plant A".to_string()), &history);
    assert_eq!(
        msgs,
        vec![
            (MessageRole::System, "Be brief".to_string()),
            (MessageRole::System, "Context: plant A".to_string()),
            (MessageRole::User, "hi".to_string()),
        ]
    );
    let msgs = prompt_messages("", &None, &history);
    assert_eq!(msgs, history);
}

#[test]
fn sender_totals_add_up() {
    let manager = MemoryManager::new(MemoryConfig::default());
    let messages = vec![
        Message::from_user(1, "u".to_string(), "a".repeat(9)),
        Message::from_agent(1, 2, "b".repeat(20), Some("gpt-4".to_string())),
        Message::system(1, "c".repeat(3)),
    ];
    let stats = manager.calculate_token_stats(&messages);
    let sum: u32 = stats.tokens_by_sender.iter().map(|(_, n)| *n).sum();
    assert_eq!(sum, stats.total_tokens);
    assert_eq!(stats.total_tokens, 3 + 5 + 1);
    assert_eq!(stats.tokens_by_model, vec![("gpt-4".to_string(), 5)]);
}

#[test]
fn exceeding_matches_capacity() {
    let manager = MemoryManager::new(MemoryConfig { max_context_tokens: 100, ..Default::default() });
    for current in [0u32, 40, 100] {
        for new in [0u32, 1, 60, 61, 100] {
            assert_eq!(manager.would_exceed_limit(current, new), new > manager.remaining_capacity(current));
        }
    }
    assert!(manager.would_exceed_limit(150, 0));
    assert_eq!(manager.remaining_capacity(150), 0);
}

#[test]
fn versions_compare_numerically() {
    assert_eq!(compare_versions("1.10.0", "1.9.0"), std::cmp::Ordering::Greater);
    assert_eq!(compare_versions("1.0.0", "1.0.0"), std::cmp::Ordering::Equal);
    assert_eq!(compare_versions("1.0", "1.0.0"), std::cmp::Ordering::Less);
}

#[test]
fn builder_keeps_status_and_property_filters_out_of_the_query() {
    let b = TwinQueryBuilder::new().with_status(vec!["active".to_string()]).with_property_filter(PropertyFilter {
        property_name: "temp".to_string(),
        operator: FilterOperator::GreaterThan,
        value: JsonValue::Number("20".to_string()),
    });
    assert_eq!(b.property_filters.len(), 1);
    let q = b.build();
    assert_eq!(q.status_filter, Some(vec!["active".to_string()]));
    assert_eq!(q.twin_type, None);
}

#[test]
fn anomaly_builder_names_the_first_missing_field() {
    let b = AnomalyDetectedBuilder::new().anomaly_type("overheat".to_string());
    assert_eq!(b.build().unwrap_err(), "Twin ID is required");
    let twin = TwinId::from_uuid(42);
    let b = AnomalyDetectedBuilder::new().twin_id(twin).anomaly_type("overheat".to_string());
    assert_eq!(b.build().unwrap_err(), "Severity is required");
    let ev = AnomalyDetectedBuilder::new()
        .twin_id(twin)
        .anomaly_type("overheat".to_string())
        .severity(AnomalySeverity::High)
        .description("too hot".to_string())
        .add_affected_sensor("t1".to_string())
        .add_recommended_action("cool down".to_string())
        .build()
        .unwrap();
    assert_eq!(ev.twin_id, twin);
    assert_eq!(ev.severity, AnomalySeverity::High);
    assert_eq!(ev.affected_sensors, vec!["t1".to_string()]);
    assert_eq!(ev.recommended_actions, vec!["cool down".to_string()]);
    assert_eq!(ev.event_id.len(), 36);
}

#[test]
fn anomaly_events_get_a_uuid() {
    let b = AnomalyDetectedBuilder::new();
    let u = uuid::Uuid::parse_str(&b.event_id).unwrap();
    assert_eq!(u.get_version_num(), 4);
    assert_eq!(u.to_string(), b.event_id);
}
