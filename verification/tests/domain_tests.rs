use digital_twin::models::sensor_data::{SensorReadings, TimedReading};
use digital_twin::models::digital_twin::{DataSource, DataSourceType};
use digital_twin::errors::{DomainError, NotFoundError, ValidationError, ResourceConstraintError, AuthorizationError};
use digital_twin::error_messages::ErrorExt;
use digital_twin::ids::ConversationId;
use digital_twin::value_objects::{Email, TimeWindow, Url, Version};
use digital_twin::models::agent::{Agent, AgentCapability, AgentState, CapabilityType};
use digital_twin::models::conversation::{Conversation, ConversationState, ContentType, Message, MessageSender};
use digital_twin::models::digital_twin::{DigitalTwin, SyncMode, TwinState, TwinType};

#[test]
fn test_not_found_error() {
    let agent_id = uuid::Uuid::new_v4();
    let error = NotFoundError::Agent(agent_id.as_u128());
    assert_eq!(error.to_string(), format!("Agent not found with ID: {}", agent_id));
}

#[test]
fn test_validation_error_helpers() {
    let error = ValidationError::empty_field("name");
    assert_eq!(error.to_string(), "Field 'name' cannot be empty");

    let error = ValidationError::invalid_length("description", 10, 100, 5);
    assert_eq!(error.to_string(), "Field 'description' must be between 10 and 100 characters, got 5");

    let error = ValidationError::out_of_range("temperature", -50, 150, 200);
    assert_eq!(error.to_string(), "Field 'temperature' must be between -50 and 150, got 200");
}

#[test]
fn test_domain_error_from_variants() {
    let not_found = NotFoundError::Agent(uuid::Uuid::new_v4().as_u128());
    let domain_error: DomainError = not_found.into();
    assert!(matches!(domain_error, DomainError::NotFound(_)));

    let validation = ValidationError::empty_field("test");
    let domain_error: DomainError = validation.into();
    assert!(matches!(domain_error, DomainError::Validation(_)));
}

#[test]
fn test_error_context() {
    let error = ValidationError::empty_field("name");
    let contextualized = error.context("Failed to create agent");
    match contextualized {
        DomainError::Other(msg) => {
            assert!(msg.contains("Failed to create agent"));
        }
        _ => panic!("Expected Other variant"),
    }
}

#[test]
fn test_multiple_validation_errors() {
    let errors = vec![
        ValidationError::empty_field("name"),
        ValidationError::invalid_length("description", 10, 100, 5),
    ];
    let combined = ValidationError::combine(errors);
    assert!(matches!(combined, ValidationError::Multiple(_)));
}

#[test]
fn combine_keeps_a_single_error() {
    let combined = ValidationError::combine(vec![ValidationError::empty_field("name")]);
    assert_eq!(combined.to_string(), "Field 'name' cannot be empty");
}

#[test]
fn domain_error_messages_nest_the_inner_message() {
    let e: DomainError = ValidationError::empty_field("name").into();
    assert_eq!(e.to_string(), "Validation failed: Field 'name' cannot be empty");
    let e = DomainError::ResourceConstraint(ResourceConstraintError::QueueFull {
        queue: "jobs".to_string(),
        size: 10,
        capacity: 10,
    });
    assert_eq!(e.to_string(), "Resource constraint: Queue 'jobs' is full: 10 items (capacity: 10)");
    let e = DomainError::Authorization(AuthorizationError::InsufficientPermissions {
        required: vec!["admin".to_string()],
        actual: vec![],
    });
    assert_eq!(e.to_string(), "Authorization failed: Insufficient permissions: requires [\"admin\"], has []");
    let e = DomainError::Timeout { duration_ms: 1500 };
    assert_eq!(e.to_string(), "Operation timed out after 1.5s");
}

#[test]
fn context_keeps_the_text_of_other_errors() {
    let e = DomainError::Other("disk full".to_string()).context("Saving twin");
    match e {
        DomainError::Other(m) => assert_eq!(m, "Saving twin: disk full"),
        _ => panic!("Expected Other variant"),
    }
    let e = DomainError::Configuration("bad port".to_string()).context("Startup");
    match e {
        DomainError::Other(m) => assert_eq!(m, "Startup: Configuration error: bad port"),
        _ => panic!("Expected Other variant"),
    }
}

#[test]
fn test_id_value_objects() {
    let conv_id = ConversationId::new();
    let uuid = conv_id.as_uuid();
    assert_eq!(ConversationId::from_uuid(*uuid), conv_id);

    let parsed = ConversationId::parse_str(&conv_id.to_string()).unwrap();
    assert_eq!(parsed, conv_id);
}

#[test]
fn id_parse_rejects_non_uuid_text() {
    match ConversationId::parse_str("not-a-uuid") {
        Err(DomainError::Validation(ValidationError::InvalidFormat { field, reason })) => {
            assert_eq!(field, "ConversationId");
            assert_eq!(reason, "Invalid UUID format");
        }
        _ => panic!("expected a format error"),
    }
    let id = ConversationId::from_uuid(0x67e5_5044_10b1_426f_9247_bb68_0e5f_e0c8);
    assert_eq!(id.to_string(), "67e55044-10b1-426f-9247-bb680e5fe0c8");
}

#[test]
fn test_email_validation() {
    assert!(Email::new("test@example.com").is_ok());
    assert!(Email::new("TEST@EXAMPLE.COM").is_ok());
    assert!(Email::new("  test@example.com  ").is_ok());

    assert!(Email::new("").is_err());
    assert!(Email::new("test").is_err());
    assert!(Email::new("test@").is_err());
    assert!(Email::new("@example.com").is_err());
    assert!(Email::new("test@example").is_err());

    let email = Email::new("user@example.com").unwrap();
    assert_eq!(email.local_part(), "user");
    assert_eq!(email.domain(), "example.com");
}

#[test]
fn email_is_trimmed_and_lowercased() {
    let email = Email::new("  Alice@Example.COM ").unwrap();
    assert_eq!(email.as_str(), "alice@example.com");
}

#[test]
fn url_parts() {
    let url = Url::new("https://example.com/path").unwrap();
    assert_eq!(url.protocol(), "https");
    assert_eq!(url.host(), Some("example.com"));
    assert!(Url::new("ftp://example.com").is_err());
}

#[test]
fn test_time_window() {
    let hour: i64 = 3_600_000_000;
    let start: i64 = 1_700_000_000_000_000;
    let end = start + hour;

    let window = TimeWindow::new(start, end).unwrap();
    assert_eq!(window.duration(), hour as i128);

    let mid = start + hour / 2;
    assert!(window.contains(mid));
    assert!(!window.contains(start - 60_000_000));

    assert!(TimeWindow::new(end, start).is_err());
}

#[test]
fn time_windows_overlap_symmetrically() {
    let a = TimeWindow::new(0, 10).unwrap();
    let b = TimeWindow::new(5, 15).unwrap();
    let c = TimeWindow::new(10, 20).unwrap();
    assert!(a.overlaps(&b) && b.overlaps(&a));
    assert!(!a.overlaps(&c) && !c.overlaps(&a));
}

#[test]
fn test_version() {
    let v1 = Version::new(1, 2, 3);
    assert_eq!(v1.to_string(), "1.2.3");

    let v2 = Version::with_pre_release(1, 2, 3, "beta").unwrap();
    assert_eq!(v2.to_string(), "1.2.3-beta");
    assert!(v2.is_pre_release());

    let parsed = Version::parse("2.0.1").unwrap();
    assert_eq!(parsed.to_string(), "2.0.1");

    let parsed = Version::parse("2.0.1-alpha.1").unwrap();
    assert_eq!(parsed.to_string(), "2.0.1-alpha.1");

    assert!(v1.is_compatible_with(&Version::new(1, 3, 0)));
    assert!(!v1.is_compatible_with(&Version::new(2, 0, 0)));

    assert!(Version::parse("1.2").is_err());
    assert!(Version::parse("a.b.c").is_err());
}

#[test]
fn version_text_reads_back() {
    let v = Version::with_pre_release(10, 0, 42, "rc.2").unwrap();
    let again = Version::parse(&v.to_string()).unwrap();
    assert_eq!(again.to_string(), "10.0.42-rc.2");
}

#[test]
fn test_agent_creation() {
    let agent = Agent::new(
        "Test Agent".to_string(),
        "A test agent".to_string(),
        "You are a helpful assistant.".to_string(),
    );
    assert_eq!(agent.name, "Test Agent");
    assert_eq!(agent.state, AgentState::Active);
    assert!(agent.capabilities.is_empty());
    assert!(agent.is_available());
}

#[test]
fn test_agent_capabilities() {
    let mut agent = Agent::new(
        "Test Agent".to_string(),
        "A test agent".to_string(),
        "You are a helpful assistant.".to_string(),
    );
    let capability = AgentCapability::new("Code Generation".to_string(), CapabilityType::CodeGeneration);
    agent.add_capability(capability);

    assert_eq!(agent.capabilities.len(), 1);
    assert!(agent.has_capability(&CapabilityType::CodeGeneration));
    assert!(!agent.has_capability(&CapabilityType::WebBrowsing));
}

#[test]
fn test_agent_state_changes() {
    let mut agent = Agent::new(
        "Test Agent".to_string(),
        "A test agent".to_string(),
        "You are a helpful assistant.".to_string(),
    );
    assert!(agent.is_available());

    agent.set_state(AgentState::Processing);
    assert!(!agent.is_available());
    assert_eq!(agent.state, AgentState::Processing);

    agent.set_state(AgentState::Active);
    assert!(agent.is_available());
}

#[test]
fn test_conversation_creation() {
    let agent_id = uuid::Uuid::new_v4().as_u128();
    let conversation = Conversation::new("Test Conversation".to_string(), vec![agent_id]);

    assert_eq!(conversation.title, "Test Conversation");
    assert_eq!(conversation.participant_agent_ids.len(), 1);
    assert_eq!(conversation.state, ConversationState::Active);
    assert!(conversation.messages.is_empty());
}

#[test]
fn test_message_creation() {
    let conv_id = uuid::Uuid::new_v4().as_u128();
    let user_msg = Message::from_user(conv_id, "user123".to_string(), "Hello, world!".to_string());

    assert_eq!(user_msg.conversation_id, conv_id);
    assert!(matches!(user_msg.sender, MessageSender::User { .. }));
    assert_eq!(user_msg.content, "Hello, world!");
    assert_eq!(user_msg.content_type, ContentType::Text);
}

#[test]
fn test_add_message_to_conversation() {
    let agent_id = uuid::Uuid::new_v4().as_u128();
    let mut conversation = Conversation::new("Test".to_string(), vec![agent_id]);
    let message = Message::from_user(conversation.id, "user123".to_string(), "Test message".to_string());
    let updated_before = conversation.updated_at;

    conversation.add_message(message);

    assert_eq!(conversation.messages.len(), 1);
    assert!(conversation.updated_at >= updated_before);
}

#[test]
fn message_counts_cover_every_message() {
    let mut conversation = Conversation::new("Counts".to_string(), vec![7]);
    let id = conversation.id;
    conversation.add_message(Message::from_user(id, "u".to_string(), "hi".to_string()));
    conversation.add_message(Message::from_agent(id, 7, "hello".to_string(), None));
    conversation.add_message(Message::system(id, "joined".to_string()));
    conversation.add_message(Message::from_user(id, "u".to_string(), "bye".to_string()));
    assert_eq!(conversation.message_count_by_sender(), (2, 1, 1));
    assert_eq!(conversation.last_message().unwrap().content, "bye");
}

#[test]
fn test_digital_twin_creation() {
    let twin = DigitalTwin::new(
        "Test Device".to_string(),
        "A test IoT device".to_string(),
        TwinType::Device {
            device_type: "sensor".to_string(),
            manufacturer: Some("ACME".to_string()),
            model: Some("S1000".to_string()),
        },
    );
    assert_eq!(twin.name, "Test Device");
    assert_eq!(twin.state, TwinState::Idle);
    assert!(twin.agent_ids.is_empty());
    assert!(twin.data_sources.is_empty());
}

#[test]
fn test_add_agent_to_twin() {
    let mut twin = DigitalTwin::new(
        "Test Twin".to_string(),
        "Description".to_string(),
        TwinType::System { system_type: "test".to_string(), components: vec![] },
    );
    let agent_id = uuid::Uuid::new_v4().as_u128();
    twin.add_agent(agent_id);

    assert_eq!(twin.agent_ids.len(), 1);
    assert!(twin.agent_ids.contains(&agent_id));

    twin.add_agent(agent_id);
    assert_eq!(twin.agent_ids.len(), 1);
}

#[test]
fn test_sync_needed() {
    let mut twin = DigitalTwin::new(
        "Test".to_string(),
        "Description".to_string(),
        TwinType::Custom { category: "test".to_string(), attributes: vec![] },
    );
    twin.sync_config.mode = SyncMode::Periodic;
    twin.sync_config.interval_seconds = Some(60);
    assert!(twin.needs_sync());

    twin.mark_synchronized();
    assert!(!twin.needs_sync());

    twin.sync_config.mode = SyncMode::RealTime;
    assert!(!twin.needs_sync());
}

#[test]
fn sync_is_due_once_the_interval_has_passed() {
    let mut twin = DigitalTwin::new(
        "T".to_string(),
        "D".to_string(),
        TwinType::Custom { category: "c".to_string(), attributes: vec![] },
    );
    twin.sync_config.interval_seconds = Some(60);
    twin.last_sync_at = Some(0);
    assert!(!twin.needs_sync_at(59_999_999));
    assert!(twin.needs_sync_at(60_000_000));
}

#[test]
fn multiple_error_message_lists_each_error() {
    let make = || {
        vec![
            ValidationError::empty_field("name"),
            ValidationError::invalid_length("description", 10, 100, 5),
            ValidationError::InvalidEnumValue {
                field: "mode".to_string(),
                value: "x\"y".to_string(),
                valid_values: vec!["a".to_string(), "b".to_string()],
            },
        ]
    };
    let expected = format!("Multiple validation errors: {:?}", make());
    let combined = ValidationError::combine(make());
    assert_eq!(combined.to_string(), expected);
    let nested = ValidationError::Multiple(vec![ValidationError::combine(make()), ValidationError::empty_field("z")]);
    assert!(nested.to_string().starts_with("Multiple validation errors: [Multiple([EmptyField"));
}

#[test]
fn window_from_now_has_the_given_length() {
    let w = TimeWindow::from_now_with_duration(90_000_000);
    assert_eq!(w.duration(), 90_000_000);
    assert!(w.contains(w.start()));
    assert!(w.contains(w.end()));
}

#[test]
fn enabled_capabilities_skip_disabled_ones() {
    let mut agent = Agent::new("A".to_string(), "B".to_string(), "C".to_string());
    let mut off = AgentCapability::new("Browse".to_string(), CapabilityType::WebBrowsing);
    off.enabled = false;
    agent.add_capability(off);
    agent.add_capability(AgentCapability::tool_execution("Tools".to_string(), vec![1, 2]));
    let enabled = agent.enabled_capabilities();
    assert_eq!(enabled.len(), 1);
    assert_eq!(enabled[0].name, "Tools");
    assert!(agent.has_capability(&CapabilityType::ToolExecution { tool_ids: vec![1, 2] }));
    assert!(!agent.has_capability(&CapabilityType::ToolExecution { tool_ids: vec![2, 1] }));
    assert!(!agent.has_capability(&CapabilityType::WebBrowsing));
}

#[test]
fn conversations_start_active() {
    let c = Conversation::new("T".to_string(), vec![]);
    assert!(c.is_active());
    assert!(c.last_message().is_none());
}

#[test]
fn only_active_sources_are_listed() {
    let mut twin = DigitalTwin::new(
        "T".to_string(),
        "D".to_string(),
        TwinType::Custom { category: "c".to_string(), attributes: vec![] },
    );
    for (i, active) in [(1u128, true), (2, false), (3, true)] {
        twin.add_data_source(DataSource {
            id: i,
            name: format!("s{}", i),
            source_type: DataSourceType::Sensor { protocol: "mqtt".to_string(), sensor_type: "t".to_string() },
            active,
            last_connected: None,
        });
    }
    let ids: Vec<u128> = twin.active_data_sources().iter().map(|d| d.id).collect();
    assert_eq!(ids, vec![1, 3]);
}

#[test]
fn test_add_reading() {
    let mut log: SensorReadings<f64> = SensorReadings::new();
    let reading = TimedReading::now(42.5);
    log.add_reading(reading);
    assert_eq!(log.count(), 1);
    assert!(log.last_reading().is_some());
    assert_eq!(log.latest_reading().unwrap().value, 42.5);
    assert!(!log.latest_reading().unwrap().has_alerts());
}

#[test]
fn readings_in_range_keep_arrival_order() {
    let mut log: SensorReadings<f64> = SensorReadings::new();
    for (i, t) in [30i64, 10, 20, 40].iter().enumerate() {
        log.add_reading(TimedReading { id: i as u128, timestamp: *t, value: *t as f64, alert_count: 0 });
    }
    let picked: Vec<i64> = log.readings_in_range(15, 35).iter().map(|r| r.timestamp).collect();
    assert_eq!(picked, vec![30, 20]);
    assert_eq!(log.first_reading(), Some(30));
    assert_eq!(log.last_reading(), Some(40));
    assert_eq!(log.count(), 4);
}

#[test]
fn new_ids_are_version_4_uuids() {
    let id = ConversationId::new();
    let u = uuid::Uuid::from_u128(id.into_uuid());
    assert_eq!(u.get_version_num(), 4);
    assert_eq!(u.get_variant(), uuid::Variant::RFC4122);
    assert_ne!(ConversationId::new(), ConversationId::new());
}

#[test]
fn email_parts_rebuild_the_address() {
    let email = Email::new("  First.Last@Example.ORG ").unwrap();
    assert_eq!(email.as_str(), "first.last@example.org");
    assert_eq!(email.local_part(), "first.last");
    assert_eq!(email.domain(), "example.org");
    assert_eq!(format!("{}@{}", email.local_part(), email.domain()), email.as_str());
    assert!(Email::new("a@b@c.com").is_err());
}

#[test]
fn windows_from_now_take_any_duration() {
    let w = TimeWindow::from_now_with_duration(-5_000_000);
    assert_eq!(w.duration(), -5_000_000);
    assert!(w.end() < w.start());
    let w = TimeWindow::from_now_with_duration(0);
    assert_eq!(w.duration(), 0);
}

#[test]
fn durations_are_written_as_std_writes_them() {
    for ms in [0u64, 1, 7, 250, 999, 1000, 1001, 1010, 1100, 1500, 1234, 60_000, 90_061, 3_600_000] {
        let expected = format!("{:?}", std::time::Duration::from_millis(ms));
        assert_eq!(digital_twin::error_messages::duration_debug_text(ms), expected);
    }
    assert_eq!(digital_twin::error_messages::duration_debug_text(1500), "1.5s");
    assert_eq!(digital_twin::error_messages::duration_debug_text(1050), "1.05s");
    assert_eq!(digital_twin::error_messages::duration_debug_text(250), "250ms");
    assert_eq!(digital_twin::error_messages::duration_debug_text(0), "0ns");
}

#[test]
fn white_space_is_the_unicode_list() {
    for c in (0u32..0x3100).filter_map(char::from_u32) {
        assert_eq!(digital_twin::text::char_is_whitespace(c), c.is_whitespace(), "{:?}", c);
    }
    assert!(digital_twin::text::char_is_whitespace('\u{3000}'));
    assert!(!digital_twin::text::char_is_whitespace('U'));
}

#[test]
fn ids_are_written_in_the_hyphenated_form() {
    for u in [0u128, 1, 0x0123_4567_89ab_cdef_0123_4567_89ab_cdef, u128::MAX] {
        assert_eq!(ConversationId::from_uuid(u).to_string(), uuid::Uuid::from_u128(u).to_string());
    }
    assert_eq!(
        ConversationId::from_uuid(0x0123_4567_89ab_cdef_0123_4567_89ab_cdef).to_string(),
        "01234567-89ab-cdef-0123-456789abcdef"
    );
}
