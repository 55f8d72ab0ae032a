//! AI agents that converse with users and run tools.

use vstd::prelude::*;
use crate::ids::{new_uuid, now_micros};

verus! {

/// Current state of an agent.
#[derive(Debug, Clone, Copy, PartialEq, Eq, Structural)]
pub enum AgentState {
    Active,
    Inactive,
    Processing,
    Error,
    Maintenance,
}

/// Kinds of capability an agent can have.
#[derive(Debug, Clone)]
pub enum CapabilityType {
    Conversation,
    CodeGeneration,
    ToolExecution { tool_ids: Vec<u128> },
    FileSystem,
    WebBrowsing,
    DataAnalysis,
    ImageGeneration,
    Custom { identifier: String },
}

/// Whether two capability types are the same kind with the same payload.
pub open spec fn same_capability_type(a: CapabilityType, b: CapabilityType) -> bool {
    match (a, b) {
        (CapabilityType::Conversation, CapabilityType::Conversation) => true,
        (CapabilityType::CodeGeneration, CapabilityType::CodeGeneration) => true,
        (CapabilityType::ToolExecution { tool_ids: x }, CapabilityType::ToolExecution { tool_ids: y }) => x@ == y@,
        (CapabilityType::FileSystem, CapabilityType::FileSystem) => true,
        (CapabilityType::WebBrowsing, CapabilityType::WebBrowsing) => true,
        (CapabilityType::DataAnalysis, CapabilityType::DataAnalysis) => true,
        (CapabilityType::ImageGeneration, CapabilityType::ImageGeneration) => true,
        (CapabilityType::Custom { identifier: x }, CapabilityType::Custom { identifier: y }) => x@ == y@,
        _ => false,
    }
}

/// Whether two identifier lists are equal.
pub fn ids_eq(x: &Vec<u128>, y: &Vec<u128>) -> (r: bool)
    ensures
        r == (x@ == y@),
{
    if x.len() != y.len() {
        return false;
    }
    let mut i: usize = 0;
    while i < x.len()
        invariant
            x.len() == y.len(),
            i <= x.len(),
            forall|j: int| 0 <= j < i ==> x@[j] == y@[j],
        decreases x.len() - i,
    {
        if x[i] != y[i] {
            assert(x@[i as int] != y@[i as int]);
            return false;
        }
        i = i + 1;
    }
    assert(x@ =~= y@);
    true
}

/// Compares two capability types as `==` does.
pub fn capability_type_eq(a: &CapabilityType, b: &CapabilityType) -> (r: bool)
    ensures
        r == same_capability_type(*a, *b),
{
    match (a, b) {
        (CapabilityType::Conversation, CapabilityType::Conversation) => true,
        (CapabilityType::CodeGeneration, CapabilityType::CodeGeneration) => true,
        (CapabilityType::ToolExecution { tool_ids: x }, CapabilityType::ToolExecution { tool_ids: y }) => ids_eq(x, y),
        (CapabilityType::FileSystem, CapabilityType::FileSystem) => true,
        (CapabilityType::WebBrowsing, CapabilityType::WebBrowsing) => true,
        (CapabilityType::DataAnalysis, CapabilityType::DataAnalysis) => true,
        (CapabilityType::ImageGeneration, CapabilityType::ImageGeneration) => true,
        (CapabilityType::Custom { identifier: x }, CapabilityType::Custom { identifier: y }) => x.eq(y),
        _ => false,
    }
}

/// A capability an agent possesses.
#[derive(Debug, Clone)]
pub struct AgentCapability {
    pub id: u128,
    pub name: String,
    pub capability_type: CapabilityType,
    pub enabled: bool,
}

impl AgentCapability {
    /// A new, enabled capability with a fresh identifier.
    pub fn new(name: String, capability_type: CapabilityType) -> (c: Self)
        ensures
            c.name@ == name@,
            c.capability_type == capability_type,
            c.enabled,
    {
        AgentCapability { id: new_uuid(), name, capability_type, enabled: true }
    }

    /// A capability to execute the given tools.
    pub fn tool_execution(name: String, tool_ids: Vec<u128>) -> (c: Self)
        ensures
            c.name@ == name@,
            c.capability_type == (CapabilityType::ToolExecution { tool_ids }),
            c.enabled,
    {
        Self::new(name, CapabilityType::ToolExecution { tool_ids })
    }
}

/// Preferred response format of an agent.
#[derive(Debug, Clone, Copy, PartialEq, Eq, Structural)]
pub enum ResponseFormat {
    Text,
    Markdown,
    Json,
    Auto,
}

/// Rate limiting of an agent's operations.
#[derive(Debug, Clone, Copy, PartialEq, Eq, Structural)]
pub struct RateLimitConfig {
    pub requests_per_minute: u32,
    pub tokens_per_minute: Option<u32>,
    pub max_concurrent: u8,
}

impl Default for RateLimitConfig {
    fn default() -> (c: Self)
        ensures
            c.requests_per_minute == 60,
            c.tokens_per_minute == Some(90000u32),
            c.max_concurrent == 5,
    {
        RateLimitConfig { requests_per_minute: 60, tokens_per_minute: Some(90000), max_concurrent: 5 }
    }
}

/// Model configuration of an agent (the sampling parameters, which are
/// floating-point numbers, are kept outside this library).
#[derive(Debug, Clone)]
pub struct AgentConfiguration {
    pub model: String,
    pub max_tokens: u32,
    pub response_format: ResponseFormat,
    pub rate_limit: RateLimitConfig,
}

impl Default for AgentConfiguration {
    fn default() -> (c: Self)
        ensures
            c.model@ == "gpt-4"@,
            c.max_tokens == 2048,
            c.response_format == ResponseFormat::Auto,
            c.rate_limit.requests_per_minute == 60,
            c.rate_limit.tokens_per_minute == Some(90000u32),
            c.rate_limit.max_concurrent == 5,
    {
        AgentConfiguration {
            model: String::from_str("gpt-4"),
            max_tokens: 2048,
            response_format: ResponseFormat::Auto,
            rate_limit: RateLimitConfig::default(),
        }
    }
}

/// Memory systems available to an agent.
#[derive(Debug, Clone, Copy, PartialEq, Eq, Structural)]
pub enum MemoryType {
    SlidingWindow,
    Summarization,
    RAG,
    Hybrid,
}

/// Long-term memory storage of an agent; `memory_categories` holds no
/// category twice.
#[derive(Debug, Clone)]
pub struct LongTermMemoryConfig {
    pub persist_memories: bool,
    pub retention_days: Option<u32>,
    pub memory_categories: Vec<String>,
}

/// Memory and context settings of an agent.
#[derive(Debug, Clone)]
pub struct MemoryConfiguration {
    pub memory_type: MemoryType,
    pub max_context_messages: usize,
    pub max_context_tokens: u32,
    pub use_semantic_memory: bool,
    pub long_term_memory: Option<LongTermMemoryConfig>,
}

impl Default for MemoryConfiguration {
    fn default() -> (c: Self)
        ensures
            c.memory_type == MemoryType::SlidingWindow,
            c.max_context_messages == 50,
            c.max_context_tokens == 4096,
            !c.use_semantic_memory,
            c.long_term_memory is None,
    {
        MemoryConfiguration {
            memory_type: MemoryType::SlidingWindow,
            max_context_messages: 50,
            max_context_tokens: 4096,
            use_semantic_memory: false,
            long_term_memory: None,
        }
    }
}

/// Descriptive metadata of an agent.
#[derive(Debug, Clone)]
pub struct AgentMetadata {
    pub version: String,
    pub created_by: String,
    pub tags: Vec<String>,
    pub avatar_url: Option<String>,
    pub languages: Vec<String>,
}

impl Default for AgentMetadata {
    fn default() -> (m: Self)
        ensures
            m.version@ == "1.0.0"@,
            m.created_by@ == "system"@,
            m.tags@.len() == 0,
            m.avatar_url is None,
            m.languages@.len() == 1,
            m.languages@[0]@ == "en"@,
    {
        let mut languages = Vec::new();
        languages.push(String::from_str("en"));
        AgentMetadata {
            version: String::from_str("1.0.0"),
            created_by: String::from_str("system"),
            tags: Vec::new(),
            avatar_url: None,
            languages,
        }
    }
}

/// An AI-powered agent with capabilities and configuration.
#[derive(Debug, Clone)]
pub struct Agent {
    pub id: u128,
    pub name: String,
    pub description: String,
    pub system_prompt: String,
    pub state: AgentState,
    pub capabilities: Vec<AgentCapability>,
    pub configuration: AgentConfiguration,
    pub memory_config: MemoryConfiguration,
    pub metadata: AgentMetadata,
    pub created_at: i64,
    pub updated_at: i64,
}

impl Agent {
    /// A new active agent without capabilities.
    pub fn new(name: String, description: String, system_prompt: String) -> (a: Self)
        ensures
            a.name@ == name@,
            a.description@ == description@,
            a.system_prompt@ == system_prompt@,
            a.state == AgentState::Active,
            a.capabilities@.len() == 0,
            a.created_at == a.updated_at,
            a.configuration.model@ == "gpt-4"@,
            a.memory_config.max_context_messages == 50,
            a.memory_config.max_context_tokens == 4096,
            a.metadata.version@ == "1.0.0"@,
    {
        let now = now_micros();
        Agent {
            id: new_uuid(),
            name,
            description,
            system_prompt,
            state: AgentState::Active,
            capabilities: Vec::new(),
            configuration: AgentConfiguration::default(),
            memory_config: MemoryConfiguration::default(),
            metadata: AgentMetadata::default(),
            created_at: now,
            updated_at: now,
        }
    }

    /// Adds a capability at the end of the list.
    pub fn add_capability(&mut self, capability: AgentCapability)
        ensures
            final(self).capabilities@ == old(self).capabilities@.push(capability),
            final(self).state == old(self).state,
            final(self).id == old(self).id,
            final(self).created_at == old(self).created_at,
    {
        self.capabilities.push(capability);
        self.updated_at = now_micros();
    }

    /// Whether some enabled capability has the given type.
    pub fn has_capability(&self, capability_type: &CapabilityType) -> (b: bool)
        ensures
            b == exists|i: int|
                0 <= i < self.capabilities@.len() && #[trigger] self.capabilities@[i].enabled
                    && same_capability_type(self.capabilities@[i].capability_type, *capability_type),
    {
        let mut i: usize = 0;
        while i < self.capabilities.len()
            invariant
                i <= self.capabilities@.len(),
                forall|j: int|
                    0 <= j < i ==> !(#[trigger] self.capabilities@[j].enabled
                        && same_capability_type(self.capabilities@[j].capability_type, *capability_type)),
            decreases self.capabilities@.len() - i,
        {
            let cap = &self.capabilities[i];
            if cap.enabled && capability_type_eq(&cap.capability_type, capability_type) {
                return true;
            }
            i = i + 1;
        }
        false
    }

    /// The enabled capabilities, in order.
    pub fn enabled_capabilities(&self) -> (r: Vec<&AgentCapability>)
        ensures
            r@.map_values(|c: &AgentCapability| *c) == self.capabilities@.filter(|c: AgentCapability| c.enabled),
    {
        let mut r: Vec<&AgentCapability> = Vec::new();
        let mut i: usize = 0;
        while i < self.capabilities.len()
            invariant
                i <= self.capabilities@.len(),
                r@.map_values(|c: &AgentCapability| *c) == self.capabilities@.take(i as int).filter(
                    |c: AgentCapability| c.enabled,
                ),
            decreases self.capabilities@.len() - i,
        {
            let cap = &self.capabilities[i];
            proof {
                reveal_with_fuel(Seq::<_>::filter, 1);
                assert(self.capabilities@.take(i + 1).drop_last() =~= self.capabilities@.take(i as int));
            }
            if cap.enabled {
                r.push(cap);
            }
            assert(r@.map_values(|c: &AgentCapability| *c) =~= self.capabilities@.take(i + 1).filter(
                |c: AgentCapability| c.enabled,
            ));
            i = i + 1;
        }
        assert(self.capabilities@.take(self.capabilities@.len() as int) =~= self.capabilities@);
        r
    }

    /// Sets the agent's state.
    pub fn set_state(&mut self, state: AgentState)
        ensures
            final(self).state == state,
            final(self).capabilities@ == old(self).capabilities@,
            final(self).id == old(self).id,
            final(self).created_at == old(self).created_at,
    {
        self.state = state;
        self.updated_at = now_micros();
    }

    /// Whether the agent can take interactions: it is active.
    pub fn is_available(&self) -> (b: bool)
        ensures
            b == (self.state == AgentState::Active),
    {
        match self.state {
            AgentState::Active => true,
            _ => false,
        }
    }
}

} // verus!
