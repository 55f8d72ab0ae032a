//! Commands and their validation.

use vstd::prelude::*;
use crate::application::use_cases::{has_content, is_blank};
use crate::ids::ToolId;

verus! {

/// A command that can check its own fields. On failure it gives every
/// problem found, in order.
pub trait CommandValidator {
    fn validate(&self) -> Result<(), Vec<String>>;
}

/// The language model an agent uses. The sampling temperature, a
/// floating-point setting, is kept and checked by the application layer.
#[derive(Debug, Clone)]
pub struct ModelConfig {
    pub provider: String,
    pub model: String,
    pub max_tokens: Option<u32>,
}

/// A request to create an agent.
#[derive(Debug, Clone)]
pub struct CreateAgentCommand {
    pub name: String,
    pub instructions: String,
    pub model_config: ModelConfig,
    pub tool_ids: Vec<ToolId>,
}

/// `m` as a one-message list when `bad` holds, an empty list otherwise.
pub open spec fn problem_if(bad: bool, m: Seq<char>) -> Seq<Seq<char>> {
    if bad { seq![m] } else { seq![] }
}

/// The problems of an agent command, in order: a blank name, blank
/// instructions, a blank provider, a blank model name, a temperature out of
/// range (as `temperature_in_range` says) and a zero token limit.
pub open spec fn agent_command_problems(c: CreateAgentCommand, temperature_in_range: bool) -> Seq<Seq<char>> {
    problem_if(!has_content(c.name@), "Agent name cannot be empty"@)
        + problem_if(!has_content(c.instructions@), "Agent instructions cannot be empty"@)
        + problem_if(!has_content(c.model_config.provider@), "Model provider cannot be empty"@)
        + problem_if(!has_content(c.model_config.model@), "Model name cannot be empty"@)
        + problem_if(!temperature_in_range, "Temperature must be between 0.0 and 2.0"@)
        + problem_if(c.model_config.max_tokens == Some(0u32), "Max tokens must be greater than 0"@)
}

fn note(v: &mut Vec<String>, bad: bool, m: &str)
    ensures
        final(v).deep_view() == old(v).deep_view() + problem_if(bad, m@),
{
    if bad {
        let ghost before = v.deep_view();
        v.push(String::from_str(m));
        assert(v.deep_view() =~= before + problem_if(bad, m@));
    } else {
        assert(v.deep_view() =~= old(v).deep_view() + problem_if(bad, m@));
    }
}

impl CreateAgentCommand {
    /// Every problem of the command, in order (see
    /// `agent_command_problems`), given whether its temperature is in range.
    pub fn problems(&self, temperature_in_range: bool) -> (v: Vec<String>)
        ensures
            v.deep_view() == agent_command_problems(*self, temperature_in_range),
    {
        let mut v: Vec<String> = Vec::new();
        assert(v.deep_view() =~= Seq::<Seq<char>>::empty());
        note(&mut v, is_blank(self.name.as_str()), "Agent name cannot be empty");
        note(&mut v, is_blank(self.instructions.as_str()), "Agent instructions cannot be empty");
        note(&mut v, is_blank(self.model_config.provider.as_str()), "Model provider cannot be empty");
        note(&mut v, is_blank(self.model_config.model.as_str()), "Model name cannot be empty");
        note(&mut v, !temperature_in_range, "Temperature must be between 0.0 and 2.0");
        let zero = match self.model_config.max_tokens {
            Some(t) => t == 0,
            None => false,
        };
        note(&mut v, zero, "Max tokens must be greater than 0");
        assert(v.deep_view() =~= agent_command_problems(*self, temperature_in_range));
        v
    }
}

impl CommandValidator for CreateAgentCommand {
    /// Succeeds when the command has no problem; otherwise gives them all,
    /// in order. The command carries no temperature, so none is out of
    /// range.
    fn validate(&self) -> (r: Result<(), Vec<String>>)
        ensures
            agent_command_problems(*self, true).len() == 0 ==> r is Ok,
            agent_command_problems(*self, true).len() > 0 ==> (r matches Err(v) && v.deep_view()
                == agent_command_problems(*self, true)),
    {
        let v = self.problems(true);
        if v.len() == 0 {
            Ok(())
        } else {
            Err(v)
        }
    }
}

} // verus!
