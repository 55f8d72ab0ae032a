//! Conversation memory: token estimation and the sliding context window.

use vstd::prelude::*;
use vstd::utf8::encode_utf8;
use crate::ids::{uuid_text, uuid_to_string};
use crate::models::conversation::{Message, MessageSender};
use crate::application::tallies::{add_to_tally, amount_of, keys_distinct, tally_map};

verus! {

/// Memory management strategies.
#[derive(Debug, Clone, Copy, PartialEq, Eq, Structural)]
pub enum MemoryStrategy {
    SlidingWindow,
    Summarization,
    RAG,
    Hybrid,
}

/// Token estimation models.
#[derive(Debug, Clone, Copy, PartialEq, Eq, Structural)]
pub enum TokenModel {
    GPT,
    Claude,
    Generic,
}

/// Configuration of memory management.
#[derive(Debug, Clone, Copy, PartialEq, Eq, Structural)]
pub struct MemoryConfig {
    pub max_context_tokens: u32,
    pub max_messages: usize,
    pub strategy: MemoryStrategy,
    pub token_model: TokenModel,
}

impl Default for MemoryConfig {
    fn default() -> (c: Self)
        ensures
            c.max_context_tokens == 4096,
            c.max_messages == 50,
            c.strategy == MemoryStrategy::SlidingWindow,
            c.token_model == TokenModel::GPT,
    {
        MemoryConfig {
            max_context_tokens: 4096,
            max_messages: 50,
            strategy: MemoryStrategy::SlidingWindow,
            token_model: TokenModel::GPT,
        }
    }
}

/// A message of the context window with its token count.
#[derive(Debug, Clone)]
pub struct ContextMessage {
    pub id: u128,
    pub sender: String,
    pub content: String,
    pub token_count: u32,
    pub created_at: i64,
    pub model: Option<String>,
}

/// The messages selected for a context window, in chronological order.
#[derive(Debug, Clone)]
pub struct ContextWindow {
    pub messages: Vec<ContextMessage>,
    pub total_tokens: u32,
    pub window_start_index: usize,
    pub window_end_index: usize,
}

/// Manages conversation context according to a configuration.
pub struct MemoryManager {
    pub config: MemoryConfig,
}

/// The number of bytes of the UTF-8 encoding of `s`, as `str::len`
/// reports it.
pub open spec fn byte_len(s: Seq<char>) -> nat {
    (encode_utf8(s).len() as usize) as nat
}

/// `n` rounded up to the next `u32`, or `u32::MAX` when it does not fit.
pub open spec fn saturate_u32(n: nat) -> nat {
    if n > u32::MAX { u32::MAX as nat } else { n }
}

/// Estimated tokens of a text of `bytes` bytes: one token per four bytes
/// (rounded up) for GPT and generic models, one per three and a half bytes
/// for Anthropic's models.
pub open spec fn estimated_tokens(model: TokenModel, bytes: nat) -> nat {
    saturate_u32(
        match model {
            TokenModel::GPT => (bytes + 3) / 4,
            TokenModel::Claude => (2 * bytes + 6) / 7,
            TokenModel::Generic => (bytes + 3) / 4,
        },
    )
}

/// A token estimate rounds up: short of saturation, GPT and generic
/// estimates are the fewest tokens of four bytes each that cover the text,
/// Anthropic's the fewest of three and a half bytes each; an empty text has
/// no token, and a longer text never has fewer tokens.
pub proof fn lemma_token_estimate_rounds_up(model: TokenModel, bytes: nat, more: nat)
    ensures
        ({
            let n = estimated_tokens(model, bytes);
            n < u32::MAX ==> match model {
                TokenModel::Claude => 7 * n >= 2 * bytes && 7 * n < 2 * bytes + 7,
                _ => 4 * n >= bytes && 4 * n < bytes + 4,
            }
        }),
        estimated_tokens(model, 0) == 0,
        estimated_tokens(model, bytes) <= estimated_tokens(model, bytes + more),
{
    let a = (bytes + 3) / 4;
    let b = (bytes + more + 3) / 4;
    let c = (2 * bytes + 6) / 7;
    let d = (2 * (bytes + more) + 6) / 7;
    assert(4 * a <= bytes + 3 && bytes + 3 < 4 * a + 4) by (nonlinear_arith)
        requires
            a == (bytes + 3) / 4,
    ;
    assert(7 * c <= 2 * bytes + 6 && 2 * bytes + 6 < 7 * c + 7) by (nonlinear_arith)
        requires
            c == (2 * bytes + 6) / 7,
    ;
    assert(a <= b) by (nonlinear_arith)
        requires
            a == (bytes + 3) / 4,
            b == (bytes + more + 3) / 4,
    ;
    assert(c <= d) by (nonlinear_arith)
        requires
            c == (2 * bytes + 6) / 7,
            d == (2 * (bytes + more) + 6) / 7,
    ;
}

/// Whether `new` more tokens on top of `current` overrun a budget of `max`.
pub open spec fn exceeds_budget(max: nat, current: nat, new: nat) -> bool {
    current + new > max
}

/// The tokens left in a budget of `max` after `current`, none when it is
/// spent or overrun.
pub open spec fn capacity_left(max: nat, current: nat) -> nat {
    if current >= max { 0 } else { (max - current) as nat }
}

/// A message overruns the budget exactly when it is larger than the
/// capacity left. (When the budget is already overrun, an empty message
/// still counts as overrunning it, though it is no larger than the zero
/// capacity left; that case is set aside.)
pub proof fn lemma_exceeds_iff_over_capacity(max: nat, current: nat, new: nat)
    requires
        current <= max || new > 0,
    ensures
        exceeds_budget(max, current, new) == (new > capacity_left(max, current)),
{
}

/// Estimated tokens of a message's content.
pub open spec fn content_tokens(model: TokenModel, m: Message) -> nat {
    estimated_tokens(model, byte_len(m.content@))
}

/// Total estimated tokens of the last `k` messages.
pub open spec fn suffix_tokens(model: TokenModel, msgs: Seq<Message>, k: nat) -> nat
    decreases k,
{
    if k == 0 || k > msgs.len() {
        0
    } else {
        content_tokens(model, msgs[msgs.len() - k]) + suffix_tokens(model, msgs, (k - 1) as nat)
    }
}

/// Whether the last `k` messages form an admissible window: at most
/// `max_messages` of them, with their estimated tokens within the token
/// budget.
pub open spec fn window_admits(config: MemoryConfig, msgs: Seq<Message>, k: nat) -> bool {
    &&& k <= msgs.len()
    &&& k <= config.max_messages
    &&& suffix_tokens(config.token_model, msgs, k) <= config.max_context_tokens
}

/// The label of a sender in a context window.
pub open spec fn sender_label(s: MessageSender) -> Seq<char> {
    match s {
        MessageSender::User { user_id } => "user:"@ + user_id@,
        MessageSender::Agent { agent_id } => "agent:"@ + uuid_text(agent_id),
        MessageSender::System => "system"@,
    }
}

/// Whether `c` is the context-window entry of message `m`.
pub open spec fn describes(c: ContextMessage, model: TokenModel, m: Message) -> bool {
    &&& c.id == m.id
    &&& c.sender@ == sender_label(m.sender)
    &&& c.content@ == m.content@
    &&& c.token_count == content_tokens(model, m)
    &&& c.created_at == m.created_at
    &&& c.model == m.metadata.model
}

/// Whether `w` is the sliding window of `msgs`: the longest admissible
/// suffix, with an entry for each of its messages in order.
pub open spec fn is_sliding_window(config: MemoryConfig, msgs: Seq<Message>, w: ContextWindow) -> bool {
    let k = (msgs.len() - w.window_start_index) as nat;
    &&& w.window_end_index == msgs.len()
    &&& w.window_start_index <= msgs.len()
    &&& window_admits(config, msgs, k)
    &&& (k == msgs.len() || !window_admits(config, msgs, k + 1))
    &&& w.messages@.len() == k
    &&& forall|j: int|
        0 <= j < k ==> describes(#[trigger] w.messages@[j], config.token_model, msgs[w.window_start_index + j])
    &&& w.total_tokens == suffix_tokens(config.token_model, msgs, k)
}

/// A longer suffix holds at least the tokens of a shorter one.
proof fn lemma_suffix_monotone(model: TokenModel, msgs: Seq<Message>, j: nat, k: nat)
    requires
        j <= k <= msgs.len(),
    ensures
        suffix_tokens(model, msgs, j) <= suffix_tokens(model, msgs, k),
    decreases k,
{
    if j < k {
        lemma_suffix_monotone(model, msgs, j, (k - 1) as nat);
    }
}

/// The sliding window keeps the newest messages and as many of them as
/// fit: it ends at the last message, its total is within the token budget
/// and its length within the message limit, and taking any more of the
/// older messages would break one of the two.
pub proof fn lemma_sliding_window_is_longest_fit(config: MemoryConfig, msgs: Seq<Message>, w: ContextWindow)
    requires
        is_sliding_window(config, msgs, w),
    ensures
        w.window_end_index == msgs.len(),
        w.messages@.len() == w.window_end_index - w.window_start_index,
        w.total_tokens <= config.max_context_tokens,
        w.messages@.len() <= config.max_messages,
        forall|k: nat|
            w.messages@.len() < k <= msgs.len() ==> k > config.max_messages || #[trigger] suffix_tokens(
                config.token_model,
                msgs,
                k,
            ) > config.max_context_tokens,
{
    let k0 = (msgs.len() - w.window_start_index) as nat;
    assert forall|k: nat|
        w.messages@.len() < k <= msgs.len() implies k > config.max_messages || #[trigger] suffix_tokens(
            config.token_model,
            msgs,
            k,
        ) > config.max_context_tokens by {
        assert(!window_admits(config, msgs, k0 + 1));
        if k <= config.max_messages {
            lemma_suffix_monotone(config.token_model, msgs, k0 + 1, k);
        }
    }
}

/// The window does not depend on the strategy: two configurations that
/// share the token budget, the message limit and the token model give
/// the same window of the same messages, whatever their strategies. (Every
/// strategy gives the sliding window, and the sliding window is unique.)
pub proof fn lemma_window_independent_of_strategy(
    c1: MemoryConfig,
    c2: MemoryConfig,
    msgs: Seq<Message>,
    w1: ContextWindow,
    w2: ContextWindow,
)
    requires
        c1.max_context_tokens == c2.max_context_tokens,
        c1.max_messages == c2.max_messages,
        c1.token_model == c2.token_model,
        is_sliding_window(c1, msgs, w1),
        is_sliding_window(c2, msgs, w2),
    ensures
        w1.window_start_index == w2.window_start_index,
        w1.window_end_index == w2.window_end_index,
        w1.total_tokens == w2.total_tokens,
        w1.messages@.len() == w2.messages@.len(),
        forall|j: int| 0 <= j < w1.messages@.len() ==> describes(#[trigger] w1.messages@[j], c1.token_model,
            msgs[w1.window_start_index + j]) && describes(w2.messages@[j], c1.token_model, msgs[w1.window_start_index + j]),
{
    let k1 = (msgs.len() - w1.window_start_index) as nat;
    let k2 = (msgs.len() - w2.window_start_index) as nat;
    assert(window_admits(c1, msgs, k2) == window_admits(c2, msgs, k2));
    assert(window_admits(c1, msgs, k1 + 1) == window_admits(c2, msgs, k1 + 1));
    if k1 < k2 {
        lemma_suffix_monotone(c1.token_model, msgs, k1 + 1, k2);
        assert(window_admits(c2, msgs, k1 + 1));
    } else if k2 < k1 {
        lemma_suffix_monotone(c1.token_model, msgs, k2 + 1, k1);
        assert(window_admits(c1, msgs, k2 + 1));
    }
}

/// Token statistics of a set of messages. The per-sender and per-model
/// totals are association lists with distinct keys, in order of first
/// appearance.
#[derive(Debug, Clone)]
pub struct TokenStats {
    pub total_tokens: u32,
    pub message_count: usize,
    pub tokens_by_sender: Vec<(String, u32)>,
    pub tokens_by_model: Vec<(String, u32)>,
    pub avg_tokens_per_message: u32,
}

/// The kind of a sender: `user`, `agent` or `system`.
pub open spec fn sender_kind(s: MessageSender) -> Seq<char> {
    match s {
        MessageSender::User { .. } => "user"@,
        MessageSender::Agent { .. } => "agent"@,
        MessageSender::System => "system"@,
    }
}

/// Total estimated tokens of the messages.
pub open spec fn total_tokens(model: TokenModel, msgs: Seq<Message>) -> nat
    decreases msgs.len(),
{
    if msgs.len() == 0 {
        0
    } else {
        total_tokens(model, msgs.drop_last()) + content_tokens(model, msgs.last())
    }
}

/// Total estimated tokens per sender kind, for the kinds that occur.
pub open spec fn sender_totals(model: TokenModel, msgs: Seq<Message>) -> Map<Seq<char>, nat>
    decreases msgs.len(),
{
    if msgs.len() == 0 {
        Map::empty()
    } else {
        let m = sender_totals(model, msgs.drop_last());
        let k = sender_kind(msgs.last().sender);
        m.insert(k, amount_of(m, k) + content_tokens(model, msgs.last()))
    }
}

/// Total estimated tokens per generating model, for the messages that name
/// one.
pub open spec fn model_totals(model: TokenModel, msgs: Seq<Message>) -> Map<Seq<char>, nat>
    decreases msgs.len(),
{
    if msgs.len() == 0 {
        Map::empty()
    } else {
        let m = model_totals(model, msgs.drop_last());
        match msgs.last().metadata.model {
            Some(md) => m.insert(md@, amount_of(m, md@) + content_tokens(model, msgs.last())),
            None => m,
        }
    }
}

/// No per-key total exceeds the overall total.
pub proof fn lemma_totals_bounded(model: TokenModel, msgs: Seq<Message>, k: Seq<char>)
    ensures
        amount_of(sender_totals(model, msgs), k) <= total_tokens(model, msgs),
        amount_of(model_totals(model, msgs), k) <= total_tokens(model, msgs),
    decreases msgs.len(),
{
    if msgs.len() > 0 {
        lemma_totals_bounded(model, msgs.drop_last(), k);
        lemma_totals_bounded(model, msgs.drop_last(), sender_kind(msgs.last().sender));
        if let Some(md) = msgs.last().metadata.model {
            lemma_totals_bounded(model, msgs.drop_last(), md@);
        }
    }
}

/// Every message is counted under exactly one sender kind: the totals of
/// users, agents and the system add up to the overall total.
pub proof fn lemma_sender_totals_partition(model: TokenModel, msgs: Seq<Message>)
    ensures
        amount_of(sender_totals(model, msgs), "user"@) + amount_of(sender_totals(model, msgs), "agent"@) + amount_of(
            sender_totals(model, msgs),
            "system"@,
        ) == total_tokens(model, msgs),
    decreases msgs.len(),
{
    reveal_strlit("user");
    reveal_strlit("agent");
    reveal_strlit("system");
    assert("user"@ != "agent"@) by {
        assert("user"@.len() != "agent"@.len());
    }
    assert("user"@ != "system"@) by {
        assert("user"@.len() != "system"@.len());
    }
    assert("agent"@ != "system"@) by {
        assert("agent"@[0] != "system"@[0]);
    }
    if msgs.len() > 0 {
        lemma_sender_totals_partition(model, msgs.drop_last());
    }
}

/// Total estimated tokens of the messages whose sender satisfies `p`.
pub open spec fn tokens_where(model: TokenModel, msgs: Seq<Message>, p: spec_fn(MessageSender) -> bool) -> nat
    decreases msgs.len(),
{
    if msgs.len() == 0 {
        0
    } else {
        tokens_where(model, msgs.drop_last(), p) + if p(msgs.last().sender) {
            content_tokens(model, msgs.last())
        } else {
            0
        }
    }
}

/// The per-sender totals count each message under its own sender: the
/// total under `user` is that of the messages users wrote, the total under
/// `agent` that of the messages agents wrote, and the total under `system`
/// that of the system's messages; no other key occurs, and a key occurs
/// exactly when a message of that sender does.
pub proof fn lemma_sender_totals_by_sender(model: TokenModel, msgs: Seq<Message>)
    ensures
        amount_of(sender_totals(model, msgs), "user"@) == tokens_where(
            model,
            msgs,
            |s: MessageSender| s is User,
        ),
        amount_of(sender_totals(model, msgs), "agent"@) == tokens_where(
            model,
            msgs,
            |s: MessageSender| s is Agent,
        ),
        amount_of(sender_totals(model, msgs), "system"@) == tokens_where(
            model,
            msgs,
            |s: MessageSender| s is System,
        ),
        sender_totals(model, msgs).contains_key("user"@) <==> exists|i: int|
            0 <= i < msgs.len() && (#[trigger] msgs[i]).sender is User,
        sender_totals(model, msgs).contains_key("agent"@) <==> exists|i: int|
            0 <= i < msgs.len() && (#[trigger] msgs[i]).sender is Agent,
        sender_totals(model, msgs).contains_key("system"@) <==> exists|i: int|
            0 <= i < msgs.len() && (#[trigger] msgs[i]).sender is System,
        forall|k: Seq<char>|
            #[trigger] sender_totals(model, msgs).contains_key(k) ==> k == "user"@ || k == "agent"@ || k
                == "system"@,
    decreases msgs.len(),
{
    reveal_strlit("user");
    reveal_strlit("agent");
    reveal_strlit("system");
    assert("user"@ != "agent"@) by {
        assert("user"@.len() != "agent"@.len());
    }
    assert("user"@ != "system"@) by {
        assert("user"@.len() != "system"@.len());
    }
    assert("agent"@ != "system"@) by {
        assert("agent"@[0] != "system"@[0]);
    }
    if msgs.len() > 0 {
        let prev = msgs.drop_last();
        lemma_sender_totals_by_sender(model, prev);
        assert forall|i: int| 0 <= i < prev.len() implies #[trigger] prev[i] == msgs[i] by {}
        let last = msgs.len() - 1;
        assert(msgs[last] == msgs.last());
        if sender_totals(model, msgs).contains_key("user"@) {
            if !(msgs.last().sender is User) {
                let i = choose|i: int| 0 <= i < prev.len() && (#[trigger] prev[i]).sender is User;
                assert(msgs[i].sender is User);
            }
        }
        if sender_totals(model, msgs).contains_key("agent"@) {
            if !(msgs.last().sender is Agent) {
                let i = choose|i: int| 0 <= i < prev.len() && (#[trigger] prev[i]).sender is Agent;
                assert(msgs[i].sender is Agent);
            }
        }
        if sender_totals(model, msgs).contains_key("system"@) {
            if !(msgs.last().sender is System) {
                let i = choose|i: int| 0 <= i < prev.len() && (#[trigger] prev[i]).sender is System;
                assert(msgs[i].sender is System);
            }
        }
        assert forall|i: int| 0 <= i < msgs.len() && (#[trigger] msgs[i]).sender is User implies sender_totals(
            model,
            msgs,
        ).contains_key("user"@) by {
            if i < last {
                assert(prev[i] == msgs[i]);
            }
        }
        assert forall|i: int| 0 <= i < msgs.len() && (#[trigger] msgs[i]).sender is Agent implies sender_totals(
            model,
            msgs,
        ).contains_key("agent"@) by {
            if i < last {
                assert(prev[i] == msgs[i]);
            }
        }
        assert forall|i: int| 0 <= i < msgs.len() && (#[trigger] msgs[i]).sender is System implies sender_totals(
            model,
            msgs,
        ).contains_key("system"@) by {
            if i < last {
                assert(prev[i] == msgs[i]);
            }
        }
    }
}

/// The total of a prefix never exceeds the total of the whole.
pub proof fn lemma_total_prefix(model: TokenModel, msgs: Seq<Message>, i: int)
    requires
        0 <= i <= msgs.len(),
    ensures
        total_tokens(model, msgs.take(i)) <= total_tokens(model, msgs),
    decreases msgs.len(),
{
    if i < msgs.len() {
        lemma_total_prefix(model, msgs.drop_last(), i);
        assert(msgs.drop_last().take(i) =~= msgs.take(i));
    } else {
        assert(msgs.take(i) =~= msgs);
    }
}

/// The kind of a message sender.
fn sender_kind_text(s: &MessageSender) -> (r: &'static str)
    ensures
        r@ == sender_kind(*s),
{
    match s {
        MessageSender::User { .. } => "user",
        MessageSender::Agent { .. } => "agent",
        MessageSender::System => "system",
    }
}

/// The label of a message sender.
fn sender_text(s: &MessageSender) -> (r: String)
    ensures
        r@ == sender_label(*s),
{
    match s {
        MessageSender::User { user_id } => {
            let mut r = String::from_str("user:");
            r.append(user_id.as_str());
            r
        },
        MessageSender::Agent { agent_id } => {
            let mut r = String::from_str("agent:");
            let id = uuid_to_string(*agent_id);
            r.append(id.as_str());
            r
        },
        MessageSender::System => String::from_str("system"),
    }
}

/// A copy of an optional string.
pub fn copy_opt_string(o: &Option<String>) -> (r: Option<String>)
    ensures
        r == *o,
{
    match o {
        Some(s) => Some(s.clone()),
        None => None,
    }
}

impl MemoryManager {
    /// A memory manager with the given configuration.
    pub fn new(config: MemoryConfig) -> (m: Self)
        ensures
            m.config == config,
    {
        MemoryManager { config }
    }

    /// Estimated tokens of `text` under the configured model.
    pub fn estimate_tokens(&self, text: &str) -> (n: u32)
        ensures
            n == estimated_tokens(self.config.token_model, byte_len(text@)),
    {
        match self.config.token_model {
            TokenModel::GPT => self.estimate_gpt_tokens(text),
            TokenModel::Claude => self.estimate_claude_tokens(text),
            TokenModel::Generic => self.estimate_generic_tokens(text),
        }
    }

    /// GPT estimate: one token per four bytes, rounded up.
    pub fn estimate_gpt_tokens(&self, text: &str) -> (n: u32)
        ensures
            n == estimated_tokens(TokenModel::GPT, byte_len(text@)),
    {
        let bytes = text.len() as u128;
        let est = (bytes + 3) / 4;
        if est > 4294967295u128 { 4294967295u32 } else { est as u32 }
    }

    /// Estimate for Anthropic's models: one token per three and a half bytes,
    /// rounded up.
    pub fn estimate_claude_tokens(&self, text: &str) -> (n: u32)
        ensures
            n == estimated_tokens(TokenModel::Claude, byte_len(text@)),
    {
        let bytes = text.len() as u128;
        let est = (2 * bytes + 6) / 7;
        if est > 4294967295u128 { 4294967295u32 } else { est as u32 }
    }

    /// Generic estimate: one token per four bytes, rounded up.
    pub fn estimate_generic_tokens(&self, text: &str) -> (n: u32)
        ensures
            n == estimated_tokens(TokenModel::Generic, byte_len(text@)),
    {
        let bytes = text.len() as u128;
        let est = (bytes + 3) / 4;
        if est > 4294967295u128 { 4294967295u32 } else { est as u32 }
    }

    /// Token totals of `messages`: overall, per sender kind and per model,
    /// with the average per message (zero for no messages).
    pub fn calculate_token_stats(&self, messages: &[Message]) -> (st: TokenStats)
        requires
            total_tokens(self.config.token_model, messages@) <= u32::MAX,
            messages@.len() <= u32::MAX,
        ensures
            st.total_tokens == total_tokens(self.config.token_model, messages@),
            st.message_count == messages@.len(),
            keys_distinct(st.tokens_by_sender@),
            tally_map(st.tokens_by_sender@) == sender_totals(self.config.token_model, messages@),
            keys_distinct(st.tokens_by_model@),
            tally_map(st.tokens_by_model@) == model_totals(self.config.token_model, messages@),
            st.avg_tokens_per_message == (if messages@.len() == 0 {
                0
            } else {
                total_tokens(self.config.token_model, messages@) / messages@.len()
            }),
    {
        let ghost model = self.config.token_model;
        let ghost msgs = messages@;
        let mut total: u32 = 0;
        let mut by_sender: Vec<(String, u32)> = Vec::new();
        let mut by_model: Vec<(String, u32)> = Vec::new();
        let mut i: usize = 0;
        while i < messages.len()
            invariant
                msgs == messages@,
                model == self.config.token_model,
                total_tokens(model, msgs) <= u32::MAX,
                i <= msgs.len(),
                total == total_tokens(model, msgs.take(i as int)),
                keys_distinct(by_sender@),
                tally_map(by_sender@) == sender_totals(model, msgs.take(i as int)),
                keys_distinct(by_model@),
                tally_map(by_model@) == model_totals(model, msgs.take(i as int)),
            decreases msgs.len() - i,
        {
            let message = &messages[i];
            let tc = self.estimate_tokens(message.content.as_str());
            let ghost prefix = msgs.take(i as int);
            let ghost next = msgs.take(i + 1);
            proof {
                assert(next.drop_last() =~= prefix);
                lemma_total_prefix(model, msgs, i + 1);
                lemma_totals_bounded(model, prefix, sender_kind(message.sender));
                if let Some(md) = &message.metadata.model {
                    lemma_totals_bounded(model, prefix, md@);
                }
            }
            total = total + tc;
            add_to_tally(&mut by_sender, sender_kind_text(&message.sender), tc);
            match &message.metadata.model {
                Some(md) => add_to_tally(&mut by_model, md.as_str(), tc),
                None => {},
            }
            i = i + 1;
        }
        assert(msgs.take(msgs.len() as int) =~= msgs);
        let avg = if messages.len() == 0 { 0 } else { total / (messages.len() as u32) };
        TokenStats {
            total_tokens: total,
            message_count: messages.len(),
            tokens_by_sender: by_sender,
            tokens_by_model: by_model,
            avg_tokens_per_message: avg,
        }
    }

    /// Whether adding `new_message_tokens` to `current_tokens` would exceed
    /// the token budget.
    pub fn would_exceed_limit(&self, current_tokens: u32, new_message_tokens: u32) -> (b: bool)
        ensures
            b == exceeds_budget(self.config.max_context_tokens as nat, current_tokens as nat, new_message_tokens as nat),
    {
        (current_tokens as u64) + (new_message_tokens as u64) > (self.config.max_context_tokens as u64)
    }

    /// Tokens left in the budget after `current_tokens`, zero when none.
    pub fn remaining_capacity(&self, current_tokens: u32) -> (r: u32)
        ensures
            r == capacity_left(self.config.max_context_tokens as nat, current_tokens as nat),
    {
        if current_tokens >= self.config.max_context_tokens {
            0
        } else {
            self.config.max_context_tokens - current_tokens
        }
    }

    /// The context window for `messages`. Every strategy currently selects
    /// the sliding window.
    pub fn build_context_window(&self, messages: &[Message]) -> (w: ContextWindow)
        ensures
            is_sliding_window(self.config, messages@, w),
            w.total_tokens <= self.config.max_context_tokens,
            w.messages@.len() <= self.config.max_messages,
    {
        match self.config.strategy {
            MemoryStrategy::SlidingWindow => self.sliding_window_strategy(messages),
            MemoryStrategy::Summarization => self.summarization_strategy(messages),
            MemoryStrategy::RAG => self.rag_strategy(messages),
            MemoryStrategy::Hybrid => self.hybrid_strategy(messages),
        }
    }

    /// Summarization strategy: currently the sliding window.
    pub fn summarization_strategy(&self, messages: &[Message]) -> (w: ContextWindow)
        ensures
            is_sliding_window(self.config, messages@, w),
    {
        self.sliding_window_strategy(messages)
    }

    /// Retrieval strategy: currently the sliding window.
    pub fn rag_strategy(&self, messages: &[Message]) -> (w: ContextWindow)
        ensures
            is_sliding_window(self.config, messages@, w),
    {
        self.sliding_window_strategy(messages)
    }

    /// Hybrid strategy: currently the sliding window.
    pub fn hybrid_strategy(&self, messages: &[Message]) -> (w: ContextWindow)
        ensures
            is_sliding_window(self.config, messages@, w),
    {
        self.sliding_window_strategy(messages)
    }

    /// Keeps the most recent messages, taken newest first, while they fit
    /// the message limit and the token budget, and gives them in their
    /// order.
    pub fn sliding_window_strategy(&self, messages: &[Message]) -> (w: ContextWindow)
        ensures
            is_sliding_window(self.config, messages@, w),
            w.total_tokens <= self.config.max_context_tokens,
            w.messages@.len() <= self.config.max_messages,
    {
        let ghost msgs = messages@;
        let ghost model = self.config.token_model;
        let n = messages.len();
        let max_tokens = self.config.max_context_tokens as u64;
        let mut rev: Vec<ContextMessage> = Vec::new();
        let mut total: u64 = 0;
        let mut idx: usize = n;
        let mut stopped = false;
        while idx > 0 && !stopped
            invariant
                n == msgs.len(),
                msgs == messages@,
                model == self.config.token_model,
                max_tokens == self.config.max_context_tokens,
                idx <= n,
                rev@.len() == n - idx,
                total == suffix_tokens(model, msgs, (n - idx) as nat),
                total <= u32::MAX,
                window_admits(self.config, msgs, (n - idx) as nat),
                stopped ==> !window_admits(self.config, msgs, (n - idx + 1) as nat),
                forall|j: int| 0 <= j < rev@.len() ==> describes(#[trigger] rev@[j], model, msgs[n - 1 - j]),
            decreases idx + (if stopped { 0int } else { 1int }),
        {
            let i = idx - 1;
            let message = &messages[i];
            let tc = self.estimate_tokens(message.content.as_str());
            let ghost k = (n - idx) as nat;
            assert(suffix_tokens(model, msgs, k + 1) == tc + suffix_tokens(model, msgs, k));
            if total + (tc as u64) > max_tokens {
                stopped = true;
            } else if rev.len() >= self.config.max_messages {
                stopped = true;
            } else {
                let entry = ContextMessage {
                    id: message.id,
                    sender: sender_text(&message.sender),
                    content: message.content.clone(),
                    token_count: tc,
                    created_at: message.created_at,
                    model: copy_opt_string(&message.metadata.model),
                };
                rev.push(entry);
                total = total + (tc as u64);
                idx = i;
            }
        }
        let ghost k = n - idx;
        let mut ordered: Vec<ContextMessage> = Vec::new();
        while rev.len() > 0
            invariant
                k == n - idx,
                n == msgs.len(),
                idx <= n,
                ordered@.len() + rev@.len() == k,
                forall|t: int| 0 <= t < rev@.len() ==> describes(#[trigger] rev@[t], model, msgs[n - 1 - t]),
                forall|t: int| 0 <= t < ordered@.len() ==> describes(#[trigger] ordered@[t], model, msgs[idx + t]),
            decreases rev@.len(),
        {
            let entry = rev.pop().unwrap();
            ordered.push(entry);
        }
        ContextWindow {
            messages: ordered,
            total_tokens: total as u32,
            window_start_index: idx,
            window_end_index: n,
        }
    }
}

} // verus!
