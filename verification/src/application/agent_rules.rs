//! The rules the agent services apply between their repository calls:
//! what an agent's name and instructions must hold, how its tool list
//! changes, and which messages a language model is given for a turn.

use vstd::prelude::*;
use crate::application::use_cases::has_content;
use crate::errors::concat2;
use crate::text::{chars_of, trim_chars};
use crate::traits::llm_client::MessageRole;

verus! {

fn blank(s: &str) -> (b: bool)
    ensures
        b == !has_content(s@),
{
    let c = chars_of(s);
    let t = trim_chars(c.as_slice());
    t.len() == 0
}

/// The first problem with an agent's name and instructions, if any.
pub open spec fn agent_text_problem(name: Seq<char>, instructions: Seq<char>) -> Option<Seq<char>> {
    if !has_content(name) {
        Some("Agent name cannot be empty"@)
    } else if !has_content(instructions) {
        Some("Agent instructions cannot be empty"@)
    } else {
        None
    }
}

/// Accepts a name and instructions that are not blank; otherwise names the
/// first blank one.
pub fn validate_agent_text(name: &str, instructions: &str) -> (r: Result<(), String>)
    ensures
        match agent_text_problem(name@, instructions@) {
            Some(m) => r matches Err(e) && e@ == m,
            None => r is Ok,
        },
{
    if blank(name) {
        Err(String::from_str("Agent name cannot be empty"))
    } else if blank(instructions) {
        Err(String::from_str("Agent instructions cannot be empty"))
    } else {
        Ok(())
    }
}

/// Checks the parts of an agent update that are given, the name first.
pub fn validate_agent_update(name: &Option<String>, instructions: &Option<String>) -> (r: Result<(), String>)
    ensures
        match (name, instructions) {
            (Some(n), _) if !has_content(n@) => r matches Err(e) && e@ == "Agent name cannot be empty"@,
            (_, Some(i)) if !has_content(i@) => r matches Err(e) && e@ == "Agent instructions cannot be empty"@,
            _ => r is Ok,
        },
{
    if let Some(n) = name {
        if blank(n.as_str()) {
            return Err(String::from_str("Agent name cannot be empty"));
        }
    }
    if let Some(i) = instructions {
        if blank(i.as_str()) {
            return Err(String::from_str("Agent instructions cannot be empty"));
        }
    }
    Ok(())
}

/// `tools` without any occurrence of `id`.
pub open spec fn without(tools: Seq<u128>, id: u128) -> Seq<u128> {
    tools.filter(|t: u128| t != id)
}

/// Gives an agent a tool it does not have yet; a tool it already has is
/// refused and the list is left as it was.
pub fn add_tool(tools: &mut Vec<u128>, tool_id: u128) -> (r: Result<(), String>)
    ensures
        r is Ok <==> !old(tools)@.contains(tool_id),
        r is Ok ==> final(tools)@ == old(tools)@.push(tool_id),
        r matches Err(m) ==> final(tools)@ == old(tools)@ && m@ == "Agent already has this tool"@,
{
    let mut i: usize = 0;
    while i < tools.len()
        invariant
            i <= tools@.len(),
            tools@ == old(tools)@,
            forall|j: int| 0 <= j < i ==> tools@[j] != tool_id,
        decreases tools@.len() - i,
    {
        if tools[i] == tool_id {
            return Err(String::from_str("Agent already has this tool"));
        }
        i = i + 1;
    }
    tools.push(tool_id);
    Ok(())
}

/// Takes a tool from an agent, every occurrence of it; a tool the agent
/// does not have is refused and the list is left as it was.
pub fn remove_tool(tools: &mut Vec<u128>, tool_id: u128) -> (r: Result<(), String>)
    ensures
        r is Ok <==> old(tools)@.contains(tool_id),
        r is Ok ==> final(tools)@ == without(old(tools)@, tool_id),
        r matches Err(m) ==> final(tools)@ == old(tools)@ && m@ == "Agent does not have this tool"@,
{
    let mut kept: Vec<u128> = Vec::new();
    let mut i: usize = 0;
    while i < tools.len()
        invariant
            i <= tools@.len(),
            tools@ == old(tools)@,
            kept@ == without(tools@.take(i as int), tool_id),
        decreases tools@.len() - i,
    {
        proof {
            reveal_with_fuel(Seq::<_>::filter, 1);
            assert(tools@.take(i + 1).drop_last() =~= tools@.take(i as int));
        }
        if tools[i] != tool_id {
            kept.push(tools[i]);
        }
        i = i + 1;
    }
    assert(tools@.take(tools@.len() as int) =~= tools@);
    proof {
        lemma_without_shorter(tools@, tool_id);
    }
    if kept.len() == tools.len() {
        return Err(String::from_str("Agent does not have this tool"));
    }
    *tools = kept;
    Ok(())
}

/// Removing an id shortens a list exactly when the id occurs in it.
proof fn lemma_without_shorter(s: Seq<u128>, id: u128)
    ensures
        s.contains(id) <==> without(s, id).len() < s.len(),
        without(s, id).len() <= s.len(),
    decreases s.len(),
{
    reveal_with_fuel(Seq::<_>::filter, 1);
    if s.len() > 0 {
        lemma_without_shorter(s.drop_last(), id);
        if s.drop_last().contains(id) {
            let k = choose|k: int| 0 <= k < s.drop_last().len() && s.drop_last()[k] == id;
            assert(s[k] == id);
        }
        if s.contains(id) && s.last() != id {
            let k = choose|k: int| 0 <= k < s.len() && s[k] == id;
            assert(s.drop_last()[k] == id);
        }
    }
}

/// A list without `id` is its own result of removing `id`.
proof fn lemma_without_absent(s: Seq<u128>, id: u128)
    requires
        !s.contains(id),
    ensures
        without(s, id) == s,
    decreases s.len(),
{
    reveal_with_fuel(Seq::<_>::filter, 1);
    if s.len() > 0 {
        assert(!s.drop_last().contains(id)) by {
            if s.drop_last().contains(id) {
                let k = choose|k: int| 0 <= k < s.drop_last().len() && s.drop_last()[k] == id;
                assert(s[k] == id);
            }
        }
        lemma_without_absent(s.drop_last(), id);
        assert(s.last() != id);
        assert(s.drop_last().push(s.last()) =~= s);
    }
}

/// Removing a tool undoes adding it: when `add_tool` accepts a tool, the
/// list it leaves, with that tool removed, is the list it started from.
pub proof fn lemma_remove_undoes_add(tools: Seq<u128>, tool_id: u128)
    requires
        !tools.contains(tool_id),
    ensures
        without(tools.push(tool_id), tool_id) == tools,
{
    reveal_with_fuel(Seq::<_>::filter, 1);
    assert(tools.push(tool_id).drop_last() =~= tools);
    lemma_without_absent(tools, tool_id);
}

/// The messages a language model is given for a turn: the agent's
/// instructions as a system message when there are any, the conversation's
/// context as a system message when it has one, then the conversation's
/// messages in order.
pub open spec fn turn_messages(
    instructions: Seq<char>,
    context: Option<Seq<char>>,
    history: Seq<(MessageRole, Seq<char>)>,
) -> Seq<(MessageRole, Seq<char>)> {
    let lead: Seq<(MessageRole, Seq<char>)> = if instructions.len() > 0 {
        seq![(MessageRole::System, instructions)]
    } else {
        seq![]
    };
    let ctx: Seq<(MessageRole, Seq<char>)> = match context {
        Some(c) => seq![(MessageRole::System, "Context: "@ + c)],
        None => seq![],
    };
    lead + ctx + history
}

/// How a turn's messages are laid out: the agent's instructions, when
/// there are any, come first as a system message whether or not the
/// conversation has a context; the context, when there is one, follows as
/// a system message `Context: ...`; then the history, unchanged and in
/// order, closes the list.
pub proof fn lemma_turn_layout(
    instructions: Seq<char>,
    context: Option<Seq<char>>,
    history: Seq<(MessageRole, Seq<char>)>,
)
    ensures
        ({
            let t = turn_messages(instructions, context, history);
            let lead: int = if instructions.len() > 0 { 1 } else { 0 };
            let ctx: int = if context is Some { 1 } else { 0 };
            &&& t.len() == lead + ctx + history.len()
            &&& instructions.len() > 0 ==> t[0] == (MessageRole::System, instructions)
            &&& context matches Some(c) ==> t[lead] == (MessageRole::System, "Context: "@ + c)
            &&& forall|i: int| 0 <= i < history.len() ==> t[lead + ctx + i] == #[trigger] history[i]
        }),
{
}

/// A list of messages by role and text.
pub open spec fn message_texts(v: Seq<(MessageRole, String)>) -> Seq<(MessageRole, Seq<char>)> {
    v.map_values(|m: (MessageRole, String)| (m.0, m.1@))
}

/// The messages a language model is given for a turn (see
/// `turn_messages`).
pub fn prompt_messages(
    instructions: &str,
    context: &Option<String>,
    history: &Vec<(MessageRole, String)>,
) -> (r: Vec<(MessageRole, String)>)
    ensures
        message_texts(r@) == turn_messages(
            instructions@,
            match context {
                Some(c) => Some(c@),
                None => None,
            },
            message_texts(history@),
        ),
        r@.len() == history@.len() + (if instructions@.len() > 0 { 1int } else { 0int }) + (if context is Some {
            1int
        } else {
            0int
        }),
        instructions@.len() > 0 ==> r@[0].0 == MessageRole::System && r@[0].1@ == instructions@,
        context matches Some(c) ==> ({
            let k: int = if instructions@.len() > 0 { 1 } else { 0 };
            r@[k].0 == MessageRole::System && r@[k].1@ == "Context: "@ + c@
        }),
        forall|i: int|
            0 <= i < history@.len() ==> r@[r@.len() - history@.len() + i].0 == (#[trigger] history@[i]).0
                && r@[r@.len() - history@.len() + i].1@ == history@[i].1@,
{
    let mut r: Vec<(MessageRole, String)> = Vec::new();
    if instructions.unicode_len() > 0 {
        r.push((MessageRole::System, String::from_str(instructions)));
    }
    if let Some(c) = context {
        r.push((MessageRole::System, concat2("Context: ", c.as_str())));
    }
    let ghost lead = message_texts(r@);
    let mut i: usize = 0;
    while i < history.len()
        invariant
            i <= history@.len(),
            message_texts(r@) == lead + message_texts(history@.take(i as int)),
        decreases history@.len() - i,
    {
        let m = &history[i];
        let ghost before = r@;
        r.push((m.0, m.1.clone()));
        assert(message_texts(r@) =~= message_texts(before).push((m.0, m.1@)));
        assert(history@.take(i + 1) =~= history@.take(i as int).push(history@[i as int]));
        assert(message_texts(history@.take(i + 1)) =~= message_texts(history@.take(i as int)).push(
            (history@[i as int].0, history@[i as int].1@),
        ));
        assert(message_texts(r@) =~= lead + message_texts(history@.take(i + 1)));
        i = i + 1;
    }
    assert(history@.take(history@.len() as int) =~= history@);
    assert(message_texts(r@) =~= turn_messages(
        instructions@,
        match context {
            Some(c) => Some(c@),
            None => None,
        },
        message_texts(history@),
    ));
    proof {
        let cv = match context {
            Some(c) => Some(c@),
            None => None::<Seq<char>>,
        };
        lemma_turn_layout(instructions@, cv, message_texts(history@));
        assert forall|i: int| 0 <= i < r@.len() implies (#[trigger] message_texts(r@)[i]) == (r@[i].0, r@[i].1@) by {}
        assert forall|i: int| 0 <= i < history@.len() implies (#[trigger] message_texts(history@)[i]) == (
            history@[i].0,
            history@[i].1@,
        ) by {}
        let lead: int = if instructions@.len() > 0 { 1 } else { 0 };
        let ctx: int = if context is Some { 1 } else { 0 };
        assert forall|i: int| 0 <= i < history@.len() implies r@[r@.len() - history@.len() + i].0 == (
            #[trigger] history@[i]).0 && r@[r@.len() - history@.len() + i].1@ == history@[i].1@ by {
            assert(message_texts(r@)[lead + ctx + i] == message_texts(history@)[i]);
        }
    }
    r
}

/// A copy of a list of messages.
fn copy_messages(history: &Vec<(MessageRole, String)>) -> (r: Vec<(MessageRole, String)>)
    ensures
        message_texts(r@) == message_texts(history@),
{
    let mut r: Vec<(MessageRole, String)> = Vec::new();
    let mut i: usize = 0;
    while i < history.len()
        invariant
            i <= history@.len(),
            message_texts(r@) == message_texts(history@.take(i as int)),
        decreases history@.len() - i,
    {
        let m = &history[i];
        let ghost before = r@;
        r.push((m.0, m.1.clone()));
        assert(message_texts(r@) =~= message_texts(before).push((m.0, m.1@)));
        assert(history@.take(i + 1) =~= history@.take(i as int).push(history@[i as int]));
        assert(message_texts(history@.take(i + 1)) =~= message_texts(history@.take(i as int)).push(
            (history@[i as int].0, history@[i as int].1@),
        ));
        i = i + 1;
    }
    assert(history@.take(history@.len() as int) =~= history@);
    r
}

/// The conversation a language model is asked about in a turn: the
/// history, then the user's message `content`.
pub fn turn_history(history: &Vec<(MessageRole, String)>, content: &str) -> (r: Vec<(MessageRole, String)>)
    ensures
        message_texts(r@) == message_texts(history@).push((MessageRole::User, content@)),
{
    let mut r = copy_messages(history);
    let ghost before = r@;
    r.push((MessageRole::User, String::from_str(content)));
    assert(message_texts(r@) =~= message_texts(before).push((MessageRole::User, content@)));
    r
}

/// The conversation after a turn in which the user said `content` and the
/// model answered with `reply`: the user's message and the answer follow
/// the history; when the model failed, the history stays as it was.
pub fn next_history(
    history: &Vec<(MessageRole, String)>,
    content: &str,
    reply: &Result<String, String>,
) -> (r: Vec<(MessageRole, String)>)
    ensures
        reply matches Ok(a) ==> message_texts(r@) == message_texts(history@).push((MessageRole::User, content@)).push(
            (MessageRole::Assistant, a@),
        ),
        reply is Err ==> message_texts(r@) == message_texts(history@),
{
    match reply {
        Ok(a) => {
            let mut r = turn_history(history, content);
            let ghost before = r@;
            r.push((MessageRole::Assistant, a.clone()));
            assert(message_texts(r@) =~= message_texts(before).push((MessageRole::Assistant, a@)));
            r
        },
        Err(_) => copy_messages(history),
    }
}

} // verus!
