//! Kinds of application events and the traits of their handlers.

use vstd::prelude::*;
use crate::ids::{is_random_uuid, now_micros, uuid_parse, uuid_text, uuid_to_string, new_uuid, AgentId, ConversationId, ToolId, TwinId};
use crate::json::JsonValue;

verus! {

/// How severe a detected anomaly is.
#[derive(Debug, Clone, Copy, PartialEq, Eq)]
pub enum AnomalySeverity {
    Low,
    Medium,
    High,
    Critical,
}

/// Kinds of system notifications.
#[derive(Debug, Clone, Copy, PartialEq, Eq)]
pub enum SystemEventType {
    Startup,
    Shutdown,
    ConfigurationChanged,
    BackupCompleted,
    MaintenanceStarted,
    MaintenanceCompleted,
    ResourceWarning,
    Error,
}

/// An event that happened in the domain. The instant is in microseconds
/// since the Unix epoch; the aggregate is named by the text of its UUID.
pub trait DomainEvent {
    fn event_id(&self) -> &str;

    fn event_type(&self) -> &str;

    fn occurred_at(&self) -> i64;

    fn aggregate_id(&self) -> String;
}

/// An agent was created.
#[derive(Debug, Clone)]
pub struct AgentCreated {
    pub event_id: String,
    pub agent_id: AgentId,
    pub name: String,
    pub model_provider: String,
    pub model_name: String,
    pub occurred_at: i64,
}

/// A conversation was started.
#[derive(Debug, Clone)]
pub struct ConversationStarted {
    pub event_id: String,
    pub conversation_id: ConversationId,
    pub agent_id: AgentId,
    pub initial_context: Option<String>,
    pub occurred_at: i64,
}

/// A digital twin was created.
#[derive(Debug, Clone)]
pub struct DigitalTwinCreated {
    pub event_id: String,
    pub twin_id: TwinId,
    pub name: String,
    pub twin_type: String,
    pub tags: Vec<String>,
    pub occurred_at: i64,
}

impl DomainEvent for AgentCreated {
    fn event_id(&self) -> (r: &str)
        ensures
            r@ == self.event_id@,
    {
        self.event_id.as_str()
    }

    fn event_type(&self) -> (r: &str)
        ensures
            r@ == "agent.created"@,
    {
        "agent.created"
    }

    fn occurred_at(&self) -> (t: i64)
        ensures
            t == self.occurred_at,
    {
        self.occurred_at
    }

    /// The agent's identifier.
    fn aggregate_id(&self) -> (r: String)
        ensures
            r@ == uuid_text(self.agent_id@),
    {
        self.agent_id.to_string()
    }
}

impl DomainEvent for ConversationStarted {
    fn event_id(&self) -> (r: &str)
        ensures
            r@ == self.event_id@,
    {
        self.event_id.as_str()
    }

    fn event_type(&self) -> (r: &str)
        ensures
            r@ == "conversation.started"@,
    {
        "conversation.started"
    }

    fn occurred_at(&self) -> (t: i64)
        ensures
            t == self.occurred_at,
    {
        self.occurred_at
    }

    /// The conversation's identifier.
    fn aggregate_id(&self) -> (r: String)
        ensures
            r@ == uuid_text(self.conversation_id@),
    {
        self.conversation_id.to_string()
    }
}

impl DomainEvent for DigitalTwinCreated {
    fn event_id(&self) -> (r: &str)
        ensures
            r@ == self.event_id@,
    {
        self.event_id.as_str()
    }

    fn event_type(&self) -> (r: &str)
        ensures
            r@ == "digital_twin.created"@,
    {
        "digital_twin.created"
    }

    fn occurred_at(&self) -> (t: i64)
        ensures
            t == self.occurred_at,
    {
        self.occurred_at
    }

    /// The twin's identifier.
    fn aggregate_id(&self) -> (r: String)
        ensures
            r@ == uuid_text(self.twin_id@),
    {
        self.twin_id.to_string()
    }
}

/// A simulation finished. Its key figures are held by name with their
/// values as JSON number text.
#[derive(Debug, Clone)]
pub struct SimulationCompleted {
    pub event_id: String,
    pub twin_id: TwinId,
    pub simulation_id: String,
    pub simulation_type: String,
    pub success: bool,
    pub key_metrics: Vec<(String, String)>,
    pub recommendations_count: usize,
    pub execution_time_ms: u64,
    pub occurred_at: i64,
}

impl DomainEvent for SimulationCompleted {
    fn event_id(&self) -> (r: &str)
        ensures
            r@ == self.event_id@,
    {
        self.event_id.as_str()
    }

    fn event_type(&self) -> (r: &str)
        ensures
            r@ == "simulation.completed"@,
    {
        "simulation.completed"
    }

    fn occurred_at(&self) -> (t: i64)
        ensures
            t == self.occurred_at,
    {
        self.occurred_at
    }

    /// The twin's identifier.
    fn aggregate_id(&self) -> (r: String)
        ensures
            r@ == uuid_text(self.twin_id@),
    {
        self.twin_id.to_string()
    }
}

/// An agent was deleted.
#[derive(Debug, Clone)]
pub struct AgentDeleted {
    pub event_id: String,
    pub agent_id: AgentId,
    pub occurred_at: i64,
}

/// A message was sent in a conversation.
#[derive(Debug, Clone)]
pub struct MessageSent {
    pub event_id: String,
    pub conversation_id: ConversationId,
    pub message_role: String,
    pub message_content: String,
    pub occurred_at: i64,
}

/// A tool was run in a conversation.
#[derive(Debug)]
pub struct ToolExecuted {
    pub event_id: String,
    pub conversation_id: ConversationId,
    pub tool_name: String,
    pub parameters: Vec<(String, JsonValue)>,
    pub success: bool,
    pub execution_time_ms: u64,
    pub error_message: Option<String>,
    pub occurred_at: i64,
}

/// A twin was synchronized with its sensors.
#[derive(Debug)]
pub struct DigitalTwinSynchronized {
    pub event_id: String,
    pub twin_id: TwinId,
    pub new_readings_count: usize,
    pub properties_updated: Vec<(String, JsonValue)>,
    pub sync_duration_ms: u64,
    pub occurred_at: i64,
}

/// A twin was deleted.
#[derive(Debug, Clone)]
pub struct DigitalTwinDeleted {
    pub event_id: String,
    pub twin_id: TwinId,
    pub occurred_at: i64,
}

/// A simulation started.
#[derive(Debug, Clone)]
pub struct SimulationStarted {
    pub event_id: String,
    pub twin_id: TwinId,
    pub simulation_id: String,
    pub simulation_type: String,
    pub duration_hours: u32,
    pub occurred_at: i64,
}

/// A simulation failed.
#[derive(Debug, Clone)]
pub struct SimulationFailed {
    pub event_id: String,
    pub twin_id: TwinId,
    pub simulation_id: String,
    pub simulation_type: String,
    pub error_message: String,
    pub occurred_at: i64,
}

/// A tool was registered.
#[derive(Debug, Clone)]
pub struct ToolRegistered {
    pub event_id: String,
    pub tool_id: ToolId,
    pub name: String,
    pub category: String,
    pub occurred_at: i64,
}

/// A tool was disabled.
#[derive(Debug, Clone)]
pub struct ToolDisabled {
    pub event_id: String,
    pub tool_id: ToolId,
    pub reason: Option<String>,
    pub occurred_at: i64,
}

/// A tool was enabled.
#[derive(Debug, Clone)]
pub struct ToolEnabled {
    pub event_id: String,
    pub tool_id: ToolId,
    pub occurred_at: i64,
}

/// A notification of the system itself.
#[derive(Debug)]
pub struct SystemEvent {
    pub event_id: String,
    pub event_type: SystemEventType,
    pub message: String,
    pub details: Option<JsonValue>,
    pub occurred_at: i64,
}

/// The events of an aggregate, in the order they were appended.
pub struct EventStream<E: DomainEvent> {
    events: Vec<E>,
}

impl<E: DomainEvent> View for EventStream<E> {
    type V = Seq<E>;

    closed spec fn view(&self) -> Seq<E> {
        self.events@
    }
}

impl<E: DomainEvent> EventStream<E> {
    /// An empty stream.
    pub fn new() -> (s: Self)
        ensures
            s@ == Seq::<E>::empty(),
    {
        EventStream { events: Vec::new() }
    }

    /// Adds an event at the end.
    pub fn append(&mut self, event: E)
        ensures
            final(self)@ == old(self)@.push(event),
    {
        self.events.push(event);
    }

    /// Hands over all events, in order, and leaves the stream empty.
    pub fn take_events(&mut self) -> (v: Vec<E>)
        ensures
            v@ == old(self)@,
            final(self)@ == Seq::<E>::empty(),
    {
        let mut v: Vec<E> = Vec::new();
        std::mem::swap(&mut v, &mut self.events);
        v
    }

    /// How many events the stream holds.
    pub fn len(&self) -> (n: usize)
        ensures
            n == self@.len(),
    {
        self.events.len()
    }

    /// Whether the stream holds no event.
    pub fn is_empty(&self) -> (b: bool)
        ensures
            b == (self@.len() == 0),
    {
        self.events.len() == 0
    }
}

/// Reacts to events of one kind; implemented by the application's users.
pub trait EventHandler<E: DomainEvent> {
    fn handle(&self, event: &E);
}


/// An anomaly detected on a twin. The instant is in microseconds since the
/// Unix epoch.
#[derive(Debug)]
pub struct AnomalyDetected {
    pub event_id: String,
    pub twin_id: TwinId,
    pub anomaly_type: String,
    pub severity: AnomalySeverity,
    pub description: String,
    pub affected_sensors: Vec<String>,
    pub recommended_actions: Vec<String>,
    pub occurred_at: i64,
}

/// Builds an `AnomalyDetected` event step by step.
#[derive(Debug)]
pub struct AnomalyDetectedBuilder {
    pub event_id: String,
    pub twin_id: Option<TwinId>,
    pub anomaly_type: Option<String>,
    pub severity: Option<AnomalySeverity>,
    pub description: Option<String>,
    pub affected_sensors: Vec<String>,
    pub recommended_actions: Vec<String>,
}

/// The first field a builder still lacks, as the message `build` gives.
pub open spec fn anomaly_missing(b: AnomalyDetectedBuilder) -> Option<Seq<char>> {
    if b.twin_id is None {
        Some("Twin ID is required"@)
    } else if b.anomaly_type is None {
        Some("Anomaly type is required"@)
    } else if b.severity is None {
        Some("Severity is required"@)
    } else if b.description is None {
        Some("Description is required"@)
    } else {
        None
    }
}

impl AnomalyDetectedBuilder {
    /// A builder with a fresh event identifier (the text of a new version 4
    /// UUID) and nothing else set.
    pub fn new() -> (b: Self)
        ensures
            exists|u: u128|
                is_random_uuid(u) && b.event_id@ == #[trigger] uuid_text(u) && uuid_parse(b.event_id@) == Some(u),
            b.twin_id is None,
            b.anomaly_type is None,
            b.severity is None,
            b.description is None,
            b.affected_sensors@.len() == 0,
            b.recommended_actions@.len() == 0,
    {
        AnomalyDetectedBuilder {
            event_id: uuid_to_string(new_uuid()),
            twin_id: None,
            anomaly_type: None,
            severity: None,
            description: None,
            affected_sensors: Vec::new(),
            recommended_actions: Vec::new(),
        }
    }

    pub fn twin_id(self, id: TwinId) -> (b: Self)
        ensures
            b == (AnomalyDetectedBuilder { twin_id: Some(id), ..self }),
    {
        let mut b = self;
        b.twin_id = Some(id);
        b
    }

    pub fn anomaly_type(self, anomaly_type: String) -> (b: Self)
        ensures
            b == (AnomalyDetectedBuilder { anomaly_type: Some(anomaly_type), ..self }),
    {
        let mut b = self;
        b.anomaly_type = Some(anomaly_type);
        b
    }

    pub fn severity(self, severity: AnomalySeverity) -> (b: Self)
        ensures
            b == (AnomalyDetectedBuilder { severity: Some(severity), ..self }),
    {
        let mut b = self;
        b.severity = Some(severity);
        b
    }

    pub fn description(self, desc: String) -> (b: Self)
        ensures
            b == (AnomalyDetectedBuilder { description: Some(desc), ..self }),
    {
        let mut b = self;
        b.description = Some(desc);
        b
    }

    /// Adds a sensor to the affected ones.
    pub fn add_affected_sensor(self, sensor: String) -> (b: Self)
        ensures
            b.affected_sensors@ == self.affected_sensors@.push(sensor),
            b.event_id == self.event_id,
            b.twin_id == self.twin_id,
            b.anomaly_type == self.anomaly_type,
            b.severity == self.severity,
            b.description == self.description,
            b.recommended_actions == self.recommended_actions,
    {
        let mut b = self;
        b.affected_sensors.push(sensor);
        b
    }

    /// Adds a recommended action.
    pub fn add_recommended_action(self, action: String) -> (b: Self)
        ensures
            b.recommended_actions@ == self.recommended_actions@.push(action),
            b.event_id == self.event_id,
            b.twin_id == self.twin_id,
            b.anomaly_type == self.anomaly_type,
            b.severity == self.severity,
            b.description == self.description,
            b.affected_sensors == self.affected_sensors,
    {
        let mut b = self;
        b.recommended_actions.push(action);
        b
    }

    /// The event, stamped with the current time, once the twin, the type,
    /// the severity and the description are set; otherwise the first of
    /// them that is missing.
    pub fn build(self) -> (r: Result<AnomalyDetected, String>)
        ensures
            match anomaly_missing(self) {
                Some(m) => r matches Err(e) && e@ == m,
                None => r matches Ok(ev) && ev.event_id == self.event_id && Some(ev.twin_id) == self.twin_id
                    && Some(ev.anomaly_type) == self.anomaly_type && Some(ev.severity) == self.severity && Some(
                    ev.description,
                ) == self.description && ev.affected_sensors == self.affected_sensors && ev.recommended_actions
                    == self.recommended_actions,
            },
    {
        let twin_id = match self.twin_id {
            Some(t) => t,
            None => {
                return Err(String::from_str("Twin ID is required"));
            },
        };
        let anomaly_type = match self.anomaly_type {
            Some(t) => t,
            None => {
                return Err(String::from_str("Anomaly type is required"));
            },
        };
        let severity = match self.severity {
            Some(t) => t,
            None => {
                return Err(String::from_str("Severity is required"));
            },
        };
        let description = match self.description {
            Some(t) => t,
            None => {
                return Err(String::from_str("Description is required"));
            },
        };
        Ok(AnomalyDetected {
            event_id: self.event_id,
            twin_id,
            anomaly_type,
            severity,
            description,
            affected_sensors: self.affected_sensors,
            recommended_actions: self.recommended_actions,
            occurred_at: now_micros(),
        })
    }
}

impl Default for AnomalyDetectedBuilder {
    /// A builder with a fresh event identifier and nothing else set.
    fn default() -> (b: Self)
        ensures
            b.twin_id is None,
            b.anomaly_type is None,
            b.severity is None,
            b.description is None,
            b.affected_sensors@.len() == 0,
            b.recommended_actions@.len() == 0,
    {
        AnomalyDetectedBuilder::new()
    }
}

} // verus!
