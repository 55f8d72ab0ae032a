//! Conversations between users and agents, and their messages.

use vstd::prelude::*;
use crate::ids::{new_uuid, now_micros};

verus! {

/// Who sent a message.
#[derive(Debug, Clone)]
pub enum MessageSender {
    User { user_id: String },
    Agent { agent_id: u128 },
    System,
}

/// State of a conversation.
#[derive(Debug, Clone, Copy, PartialEq, Eq, Structural)]
pub enum ConversationState {
    Active,
    Paused,
    Archived,
    Closed,
}

/// Kind of content a message carries.
#[derive(Debug, Clone, Copy, PartialEq, Eq, Structural)]
pub enum ContentType {
    Text,
    Markdown,
    Code,
    Json,
    ToolResult,
    Error,
}

/// Kind of a message attachment.
#[derive(Debug, Clone)]
pub enum AttachmentType {
    File,
    Image,
    Link,
    ConversationReference { conversation_id: u128 },
    SensorDataReference { sensor_data_id: u128 },
}

/// An attachment or reference in a message.
#[derive(Debug, Clone)]
pub struct Attachment {
    pub id: u128,
    pub attachment_type: AttachmentType,
    pub name: String,
    pub size: Option<u64>,
    pub mime_type: Option<String>,
    pub url: Option<String>,
}

/// Priority of a conversation; the variants are ordered from low to critical.
#[derive(Debug, Clone, Copy, PartialEq, Eq, Structural, PartialOrd, Ord)]
pub enum ConversationPriority {
    Low,
    Normal,
    High,
    Critical,
}

impl Default for ConversationPriority {
    fn default() -> (p: Self)
        ensures
            p == ConversationPriority::Normal,
    {
        ConversationPriority::Normal
    }
}

/// Metadata of a conversation.
#[derive(Debug, Clone)]
pub struct ConversationMetadata {
    pub tags: Vec<String>,
    pub priority: ConversationPriority,
    pub language: String,
}

impl Default for ConversationMetadata {
    fn default() -> (m: Self)
        ensures
            m.tags@.len() == 0,
            m.priority == ConversationPriority::Normal,
            m.language@ == "en"@,
    {
        ConversationMetadata { tags: Vec::new(), priority: ConversationPriority::Normal, language: String::from_str("en") }
    }
}

/// Metadata of a message (the confidence score, a floating-point number, is
/// kept outside this library).
#[derive(Debug, Clone)]
pub struct MessageMetadata {
    pub edited: bool,
    pub edited_at: Option<i64>,
    pub token_count: Option<u32>,
    pub model: Option<String>,
}

impl Default for MessageMetadata {
    fn default() -> (m: Self)
        ensures
            !m.edited,
            m.edited_at is None,
            m.token_count is None,
            m.model is None,
    {
        MessageMetadata { edited: false, edited_at: None, token_count: None, model: None }
    }
}

/// One message of a conversation.
#[derive(Debug, Clone)]
pub struct Message {
    pub id: u128,
    pub conversation_id: u128,
    pub sender: MessageSender,
    pub content: String,
    pub content_type: ContentType,
    pub attachments: Vec<Attachment>,
    pub metadata: MessageMetadata,
    pub created_at: i64,
}

/// A conversation with its messages in chronological order.
#[derive(Debug, Clone)]
pub struct Conversation {
    pub id: u128,
    pub title: String,
    pub description: Option<String>,
    pub participant_agent_ids: Vec<u128>,
    pub messages: Vec<Message>,
    pub state: ConversationState,
    pub metadata: ConversationMetadata,
    pub created_at: i64,
    pub updated_at: i64,
}

/// Whether a message was sent by a user.
pub open spec fn from_user_sender(m: Message) -> bool {
    m.sender is User
}

/// Whether a message was sent by an agent.
pub open spec fn from_agent_sender(m: Message) -> bool {
    m.sender is Agent
}

/// Whether a message was generated by the system.
pub open spec fn from_system_sender(m: Message) -> bool {
    m.sender is System
}

/// Each message has exactly one kind of sender, so the per-sender counts
/// add up to the number of messages.
pub proof fn lemma_sender_counts_partition(msgs: Seq<Message>)
    ensures
        msgs.filter(|m: Message| from_user_sender(m)).len() + msgs.filter(|m: Message| from_agent_sender(m)).len()
            + msgs.filter(|m: Message| from_system_sender(m)).len() == msgs.len(),
    decreases msgs.len(),
{
    reveal_with_fuel(Seq::<_>::filter, 1);
    if msgs.len() > 0 {
        lemma_sender_counts_partition(msgs.drop_last());
    }
}

impl Conversation {
    /// A new active conversation without messages.
    pub fn new(title: String, participant_agent_ids: Vec<u128>) -> (c: Self)
        ensures
            c.title@ == title@,
            c.description is None,
            c.participant_agent_ids@ == participant_agent_ids@,
            c.messages@.len() == 0,
            c.state == ConversationState::Active,
            c.metadata.priority == ConversationPriority::Normal,
            c.metadata.language@ == "en"@,
            c.created_at == c.updated_at,
    {
        let now = now_micros();
        Conversation {
            id: new_uuid(),
            title,
            description: None,
            participant_agent_ids,
            messages: Vec::new(),
            state: ConversationState::Active,
            metadata: ConversationMetadata::default(),
            created_at: now,
            updated_at: now,
        }
    }

    /// Appends a message and records the time of the update.
    pub fn add_message(&mut self, message: Message)
        ensures
            final(self).messages@ == old(self).messages@.push(message),
            final(self).id == old(self).id,
            final(self).state == old(self).state,
            final(self).created_at == old(self).created_at,
            final(self).participant_agent_ids@ == old(self).participant_agent_ids@,
    {
        self.messages.push(message);
        self.updated_at = now_micros();
    }

    /// The most recent message, if any.
    pub fn last_message(&self) -> (m: Option<&Message>)
        ensures
            self.messages@.len() == 0 ==> m is None,
            self.messages@.len() > 0 ==> m == Some(&self.messages@.last()),
    {
        if self.messages.len() == 0 {
            None
        } else {
            Some(&self.messages[self.messages.len() - 1])
        }
    }

    /// The numbers of messages from users, agents and the system.
    pub fn message_count_by_sender(&self) -> (counts: (usize, usize, usize))
        ensures
            counts.0 == self.messages@.filter(|m: Message| from_user_sender(m)).len(),
            counts.1 == self.messages@.filter(|m: Message| from_agent_sender(m)).len(),
            counts.2 == self.messages@.filter(|m: Message| from_system_sender(m)).len(),
            counts.0 + counts.1 + counts.2 == self.messages@.len(),
    {
        let mut user_count: usize = 0;
        let mut agent_count: usize = 0;
        let mut system_count: usize = 0;
        let mut i: usize = 0;
        while i < self.messages.len()
            invariant
                i <= self.messages@.len(),
                user_count == self.messages@.take(i as int).filter(|m: Message| from_user_sender(m)).len(),
                agent_count == self.messages@.take(i as int).filter(|m: Message| from_agent_sender(m)).len(),
                system_count == self.messages@.take(i as int).filter(|m: Message| from_system_sender(m)).len(),
            decreases self.messages@.len() - i,
        {
            proof {
                reveal_with_fuel(Seq::<_>::filter, 1);
                assert(self.messages@.take(i + 1).drop_last() =~= self.messages@.take(i as int));
                lemma_sender_counts_partition(self.messages@.take(i as int));
            }
            match &self.messages[i].sender {
                MessageSender::User { .. } => user_count = user_count + 1,
                MessageSender::Agent { .. } => agent_count = agent_count + 1,
                MessageSender::System => system_count = system_count + 1,
            }
            i = i + 1;
        }
        proof {
            assert(self.messages@.take(self.messages@.len() as int) =~= self.messages@);
            lemma_sender_counts_partition(self.messages@);
        }
        (user_count, agent_count, system_count)
    }

    /// Whether the conversation accepts new messages: it is active.
    pub fn is_active(&self) -> (b: bool)
        ensures
            b == (self.state == ConversationState::Active),
    {
        match self.state {
            ConversationState::Active => true,
            _ => false,
        }
    }
}

impl Message {
    /// A plain-text message from a user.
    pub fn from_user(conversation_id: u128, user_id: String, content: String) -> (m: Self)
        ensures
            m.conversation_id == conversation_id,
            m.sender == (MessageSender::User { user_id }),
            m.content@ == content@,
            m.content_type == ContentType::Text,
            m.attachments@.len() == 0,
            m.metadata.model is None,
            !m.metadata.edited,
    {
        Message {
            id: new_uuid(),
            conversation_id,
            sender: MessageSender::User { user_id },
            content,
            content_type: ContentType::Text,
            attachments: Vec::new(),
            metadata: MessageMetadata::default(),
            created_at: now_micros(),
        }
    }

    /// A plain-text message from an agent, generated by `model`.
    pub fn from_agent(conversation_id: u128, agent_id: u128, content: String, model: Option<String>) -> (m: Self)
        ensures
            m.conversation_id == conversation_id,
            m.sender == (MessageSender::Agent { agent_id }),
            m.content@ == content@,
            m.content_type == ContentType::Text,
            m.attachments@.len() == 0,
            m.metadata.model == model,
            !m.metadata.edited,
    {
        let mut metadata = MessageMetadata::default();
        metadata.model = model;
        Message {
            id: new_uuid(),
            conversation_id,
            sender: MessageSender::Agent { agent_id },
            content,
            content_type: ContentType::Text,
            attachments: Vec::new(),
            metadata,
            created_at: now_micros(),
        }
    }

    /// A plain-text system message.
    pub fn system(conversation_id: u128, content: String) -> (m: Self)
        ensures
            m.conversation_id == conversation_id,
            m.sender == MessageSender::System,
            m.content@ == content@,
            m.content_type == ContentType::Text,
            m.attachments@.len() == 0,
            m.metadata.model is None,
    {
        Message {
            id: new_uuid(),
            conversation_id,
            sender: MessageSender::System,
            content,
            content_type: ContentType::Text,
            attachments: Vec::new(),
            metadata: MessageMetadata::default(),
            created_at: now_micros(),
        }
    }
}

} // verus!
