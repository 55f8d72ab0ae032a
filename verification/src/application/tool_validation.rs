//! Checking the parameters given to a tool against what the tool declares:
//! which parameters it requires and which JSON type each one has. The
//! parameters are a map from name to value: no name occurs twice.

use vstd::prelude::*;
use crate::errors::{concat2, concat3};
use crate::json::{member_names_distinct, JsonValue};
use crate::application::use_cases::{has_content, is_blank, same_text};

verus! {

/// The report on a tool's parameters.
#[derive(Debug)]
pub struct ToolValidationResult {
    pub is_valid: bool,
    pub errors: Vec<String>,
    pub warnings: Vec<String>,
}

/// Whether a parameter named `name` is among `params`.
pub open spec fn has_param(params: Seq<(String, JsonValue)>, name: Seq<char>) -> bool {
    exists|i: int| 0 <= i < params.len() && (#[trigger] params[i]).0@ == name
}

/// The type declared for `name`: that of the first declaration naming it.
pub open spec fn declared_type(types: Seq<(String, String)>, name: Seq<char>) -> Option<Seq<char>>
    decreases types.len(),
{
    if types.len() == 0 {
        None
    } else if types[0].0@ == name {
        Some(types[0].1@)
    } else {
        declared_type(types.drop_first(), name)
    }
}

/// The JSON type name of a value.
pub open spec fn json_type_name(v: JsonValue) -> Seq<char> {
    match v {
        JsonValue::String(_) => "string"@,
        JsonValue::Number(_) => "number"@,
        JsonValue::Bool(_) => "boolean"@,
        JsonValue::Object(_) => "object"@,
        JsonValue::Array(_) => "array"@,
        JsonValue::Null => "null"@,
    }
}

/// Whether `v` has the declared type `expected` (null never has one).
pub open spec fn has_type(v: JsonValue, expected: Seq<char>) -> bool {
    !(v is Null) && json_type_name(v) == expected
}

/// Which values have which declared type: a string has type `string`, a
/// number `number`, a boolean `boolean`, an object `object` and an array
/// `array`, each of them that type alone; null has no declared type. A
/// value's reported type is that name, or `null` for null.
pub proof fn lemma_declared_types(v: JsonValue, t: Seq<char>)
    ensures
        has_type(v, t) <==> (t == "string"@ && v is String) || (t == "number"@ && v is Number) || (t
            == "boolean"@ && v is Bool) || (t == "object"@ && v is Object) || (t == "array"@ && v is Array),
        v is String ==> json_type_name(v) == "string"@,
        v is Number ==> json_type_name(v) == "number"@,
        v is Bool ==> json_type_name(v) == "boolean"@,
        v is Object ==> json_type_name(v) == "object"@,
        v is Array ==> json_type_name(v) == "array"@,
        v is Null ==> json_type_name(v) == "null"@,
{
}

/// One message for each required parameter that is missing, in order.
pub open spec fn missing_messages(required: Seq<String>, params: Seq<(String, JsonValue)>) -> Seq<Seq<char>>
    decreases required.len(),
{
    if required.len() == 0 {
        seq![]
    } else {
        let before = missing_messages(required.drop_last(), params);
        let r = required.last()@;
        if has_param(params, r) {
            before
        } else {
            before.push("Missing required parameter: "@ + r)
        }
    }
}

/// One message for each given parameter whose value does not have its
/// declared type, in order.
pub open spec fn type_messages(params: Seq<(String, JsonValue)>, types: Seq<(String, String)>) -> Seq<Seq<char>>
    decreases params.len(),
{
    if params.len() == 0 {
        seq![]
    } else {
        let before = type_messages(params.drop_last(), types);
        let p = params.last();
        match declared_type(types, p.0@) {
            Some(t) => if has_type(p.1, t) {
                before
            } else {
                before.push("Invalid type for parameter '"@ + p.0@ + "'. Expected: "@ + t)
            },
            None => before,
        }
    }
}

/// One message for each given parameter the tool does not declare, in
/// order.
pub open spec fn unknown_messages(params: Seq<(String, JsonValue)>, types: Seq<(String, String)>) -> Seq<Seq<char>>
    decreases params.len(),
{
    if params.len() == 0 {
        seq![]
    } else {
        let before = unknown_messages(params.drop_last(), types);
        let p = params.last();
        if declared_type(types, p.0@) is None {
            before.push("Unknown parameter: "@ + p.0@)
        } else {
            before
        }
    }
}

fn param_present(params: &Vec<(String, JsonValue)>, name: &String) -> (b: bool)
    ensures
        b == has_param(params@, name@),
{
    let mut i: usize = 0;
    while i < params.len()
        invariant
            i <= params.len(),
            forall|j: int| 0 <= j < i ==> (#[trigger] params@[j]).0@ != name@,
        decreases params.len() - i,
    {
        if params[i].0.eq(name) {
            return true;
        }
        i = i + 1;
    }
    false
}

fn lookup_type<'a>(types: &'a Vec<(String, String)>, name: &String) -> (r: Option<&'a String>)
    ensures
        match r {
            Some(t) => declared_type(types@, name@) == Some(t@),
            None => declared_type(types@, name@) is None,
        },
{
    let mut i: usize = 0;
    assert(types@.skip(0) =~= types@);
    while i < types.len()
        invariant
            i <= types.len(),
            declared_type(types@.skip(i as int), name@) == declared_type(types@, name@),
        decreases types.len() - i,
    {
        assert(types@.skip(i as int).drop_first() =~= types@.skip(i + 1));
        if types[i].0.eq(name) {
            return Some(&types[i].1);
        }
        i = i + 1;
    }
    None
}

fn type_name_of(v: &JsonValue) -> (s: &'static str)
    ensures
        s@ == json_type_name(*v),
{
    match v {
        JsonValue::String(_) => "string",
        JsonValue::Number(_) => "number",
        JsonValue::Bool(_) => "boolean",
        JsonValue::Object(_) => "object",
        JsonValue::Array(_) => "array",
        JsonValue::Null => "null",
    }
}

fn type_ok(v: &JsonValue, expected: &String) -> (b: bool)
    ensures
        b == has_type(*v, expected@),
{
    let name = String::from_str(type_name_of(v));
    match v {
        JsonValue::Null => false,
        _ => name.eq(expected),
    }
}

impl ToolValidationResult {
    /// The report on `params` for a tool that requires the parameters in
    /// `required` and declares the types in `types`: errors for missing
    /// required parameters (in the order required) followed by errors for
    /// values of the wrong type, and warnings for undeclared parameters
    /// (both in the order given). The parameters are valid when there is no
    /// error.
    pub fn check(required: &Vec<String>, types: &Vec<(String, String)>, params: &Vec<(String, JsonValue)>) -> (r: Self)
        requires
            member_names_distinct(params@),
        ensures
            r.errors.deep_view() == missing_messages(required@, params@) + type_messages(params@, types@),
            r.warnings.deep_view() == unknown_messages(params@, types@),
            r.is_valid == (r.errors@.len() == 0),
    {
        let mut errors: Vec<String> = Vec::new();
        let mut i: usize = 0;
        while i < required.len()
            invariant
                i <= required.len(),
                errors.deep_view() == missing_messages(required@.take(i as int), params@),
            decreases required.len() - i,
        {
            assert(required@.take(i + 1).drop_last() =~= required@.take(i as int));
            if !param_present(params, &required[i]) {
                errors.push(concat2("Missing required parameter: ", required[i].as_str()));
            }
            assert(errors.deep_view() =~= missing_messages(required@.take(i + 1), params@));
            i = i + 1;
        }
        assert(required@.take(required.len() as int) =~= required@);
        let ghost missing = errors.deep_view();
        let mut warnings: Vec<String> = Vec::new();
        let mut k: usize = 0;
        while k < params.len()
            invariant
                k <= params.len(),
                errors.deep_view() == missing + type_messages(params@.take(k as int), types@),
                warnings.deep_view() == unknown_messages(params@.take(k as int), types@),
            decreases params.len() - k,
        {
            assert(params@.take(k + 1).drop_last() =~= params@.take(k as int));
            assert(params@.take(k + 1).last() == params@[k as int]);
            let name = &params[k].0;
            match lookup_type(types, name) {
                Some(t) => {
                    if !type_ok(&params[k].1, t) {
                        let mut m = concat3("Invalid type for parameter '", name.as_str(), "'. Expected: ");
                        m.append(t.as_str());
                        assert(m@ == "Invalid type for parameter '"@ + params@[k as int].0@ + "'. Expected: "@ + t@);
                        let ghost before = errors.deep_view();
                        errors.push(m);
                        assert(errors.deep_view() =~= before.push(m@));
                        assert(errors.deep_view() =~= missing + type_messages(params@.take(k + 1), types@));
                    } else {
                        assert(errors.deep_view() =~= missing + type_messages(params@.take(k + 1), types@));
                    }
                },
                None => {
                    warnings.push(concat2("Unknown parameter: ", name.as_str()));
                },
            }
            assert(errors.deep_view() =~= missing + type_messages(params@.take(k + 1), types@));
            assert(warnings.deep_view() =~= unknown_messages(params@.take(k + 1), types@));
            k = k + 1;
        }
        assert(params@.take(params.len() as int) =~= params@);
        let is_valid = errors.len() == 0;
        ToolValidationResult { is_valid, errors, warnings }
    }
}


/// The message for the first required parameter that is missing, if any.
pub open spec fn first_missing(required: Seq<String>, params: Seq<(String, JsonValue)>) -> Option<Seq<char>>
    decreases required.len(),
{
    if required.len() == 0 {
        None
    } else if !has_param(params, required[0]@) {
        Some("Missing required parameter: "@ + required[0]@)
    } else {
        first_missing(required.drop_first(), params)
    }
}

/// The message for the first given parameter whose value does not have its
/// declared type, if any, naming the type it has.
pub open spec fn first_mistyped(params: Seq<(String, JsonValue)>, types: Seq<(String, String)>) -> Option<Seq<char>>
    decreases params.len(),
{
    if params.len() == 0 {
        None
    } else {
        match declared_type(types, params[0].0@) {
            Some(t) if !has_type(params[0].1, t) => Some("Invalid type for parameter '"@ + params[0].0@
                + "'. Expected: "@ + t + ", Got: "@ + json_type_name(params[0].1)),
            _ => first_mistyped(params.drop_first(), types),
        }
    }
}

/// The first problem with the parameters: a missing required parameter
/// comes before a value of the wrong type.
pub open spec fn first_problem(
    required: Seq<String>,
    types: Seq<(String, String)>,
    params: Seq<(String, JsonValue)>,
) -> Option<Seq<char>> {
    match first_missing(required, params) {
        Some(m) => Some(m),
        None => first_mistyped(params, types),
    }
}

/// The first problem with `params` for a tool that requires the parameters
/// in `required` and declares the types in `types`, or `None` when they
/// can be used.
pub fn first_parameter_error(
    required: &Vec<String>,
    types: &Vec<(String, String)>,
    params: &Vec<(String, JsonValue)>,
) -> (r: Option<String>)
    requires
        member_names_distinct(params@),
    ensures
        match r {
            Some(m) => first_problem(required@, types@, params@) == Some(m@),
            None => first_problem(required@, types@, params@) is None,
        },
{
    let mut i: usize = 0;
    assert(required@.skip(0) =~= required@);
    while i < required.len()
        invariant
            i <= required.len(),
            first_missing(required@.skip(i as int), params@) == first_missing(required@, params@),
        decreases required.len() - i,
    {
        assert(required@.skip(i as int).drop_first() =~= required@.skip(i + 1));
        if !param_present(params, &required[i]) {
            return Some(concat2("Missing required parameter: ", required[i].as_str()));
        }
        i = i + 1;
    }
    let mut k: usize = 0;
    assert(params@.skip(0) =~= params@);
    while k < params.len()
        invariant
            k <= params.len(),
            first_missing(required@, params@) is None,
            first_mistyped(params@.skip(k as int), types@) == first_mistyped(params@, types@),
        decreases params.len() - k,
    {
        assert(params@.skip(k as int).drop_first() =~= params@.skip(k + 1));
        if let Some(t) = lookup_type(types, &params[k].0) {
            if !type_ok(&params[k].1, t) {
                let mut m = concat3("Invalid type for parameter '", params[k].0.as_str(), "'. Expected: ");
                m.append(t.as_str());
                m.append(", Got: ");
                m.append(type_name_of(&params[k].1));
                return Some(m);
            }
        }
        k = k + 1;
    }
    None
}


/// Whether every required parameter is given.
pub open spec fn all_present(required: Seq<String>, params: Seq<(String, JsonValue)>) -> bool {
    forall|i: int| 0 <= i < required.len() ==> has_param(params, (#[trigger] required[i])@)
}

/// Whether a given parameter has its declared type, or declares none.
pub open spec fn well_typed(types: Seq<(String, String)>, p: (String, JsonValue)) -> bool {
    match declared_type(types, p.0@) {
        Some(t) => has_type(p.1, t),
        None => true,
    }
}

/// Whether every given parameter has its declared type.
pub open spec fn all_typed(params: Seq<(String, JsonValue)>, types: Seq<(String, String)>) -> bool {
    forall|i: int| 0 <= i < params.len() ==> well_typed(types, #[trigger] params[i])
}

proof fn lemma_missing_messages_empty(required: Seq<String>, params: Seq<(String, JsonValue)>)
    ensures
        missing_messages(required, params).len() == 0 <==> all_present(required, params),
    decreases required.len(),
{
    if required.len() > 0 {
        lemma_missing_messages_empty(required.drop_last(), params);
        if all_present(required.drop_last(), params) && has_param(params, required.last()@) {
            assert forall|i: int| 0 <= i < required.len() implies has_param(params, (#[trigger] required[i])@) by {
                if i < required.len() - 1 {
                    assert(required.drop_last()[i] == required[i]);
                }
            }
        }
        if all_present(required, params) {
            assert(has_param(params, required[required.len() - 1]@));
            assert forall|i: int| 0 <= i < required.drop_last().len() implies has_param(
                params,
                (#[trigger] required.drop_last()[i])@,
            ) by {
                assert(required.drop_last()[i] == required[i]);
            }
        }
    }
}

proof fn lemma_first_missing_none(required: Seq<String>, params: Seq<(String, JsonValue)>)
    ensures
        first_missing(required, params) is None <==> all_present(required, params),
    decreases required.len(),
{
    if required.len() > 0 {
        lemma_first_missing_none(required.drop_first(), params);
        if has_param(params, required[0]@) && all_present(required.drop_first(), params) {
            assert forall|i: int| 0 <= i < required.len() implies has_param(params, (#[trigger] required[i])@) by {
                if i > 0 {
                    assert(required.drop_first()[i - 1] == required[i]);
                }
            }
        }
        if all_present(required, params) {
            assert(has_param(params, required[0]@));
            assert forall|i: int| 0 <= i < required.drop_first().len() implies has_param(
                params,
                (#[trigger] required.drop_first()[i])@,
            ) by {
                assert(required.drop_first()[i] == required[i + 1]);
            }
        }
    }
}

proof fn lemma_type_messages_empty(params: Seq<(String, JsonValue)>, types: Seq<(String, String)>)
    ensures
        type_messages(params, types).len() == 0 <==> all_typed(params, types),
    decreases params.len(),
{
    if params.len() > 0 {
        lemma_type_messages_empty(params.drop_last(), types);
        if all_typed(params.drop_last(), types) && well_typed(types, params.last()) {
            assert forall|i: int| 0 <= i < params.len() implies well_typed(types, #[trigger] params[i]) by {
                if i < params.len() - 1 {
                    assert(params.drop_last()[i] == params[i]);
                }
            }
        }
        if all_typed(params, types) {
            assert(well_typed(types, params[params.len() - 1]));
            assert forall|i: int| 0 <= i < params.drop_last().len() implies well_typed(
                types,
                #[trigger] params.drop_last()[i],
            ) by {
                assert(params.drop_last()[i] == params[i]);
            }
        }
    }
}

proof fn lemma_first_mistyped_none(params: Seq<(String, JsonValue)>, types: Seq<(String, String)>)
    ensures
        first_mistyped(params, types) is None <==> all_typed(params, types),
    decreases params.len(),
{
    if params.len() > 0 {
        lemma_first_mistyped_none(params.drop_first(), types);
        if well_typed(types, params[0]) && all_typed(params.drop_first(), types) {
            assert forall|i: int| 0 <= i < params.len() implies well_typed(types, #[trigger] params[i]) by {
                if i > 0 {
                    assert(params.drop_first()[i - 1] == params[i]);
                }
            }
        }
        if all_typed(params, types) {
            assert(well_typed(types, params[0]));
            assert forall|i: int| 0 <= i < params.drop_first().len() implies well_typed(
                types,
                #[trigger] params.drop_first()[i],
            ) by {
                assert(params.drop_first()[i] == params[i + 1]);
            }
        }
    }
}

/// The report and the first-problem search agree: the report has no error
/// exactly when the search finds no problem, which is exactly when every
/// required parameter is given and every given parameter has its declared
/// type.
pub proof fn lemma_report_agrees_with_first_problem(
    required: Seq<String>,
    types: Seq<(String, String)>,
    params: Seq<(String, JsonValue)>,
)
    ensures
        (missing_messages(required, params) + type_messages(params, types)).len() == 0
            <==> first_problem(required, types, params) is None,
        first_problem(required, types, params) is None <==> all_present(required, params) && all_typed(
            params,
            types,
        ),
{
    lemma_missing_messages_empty(required, params);
    lemma_first_missing_none(required, params);
    lemma_type_messages_empty(params, types);
    lemma_first_mistyped_none(params, types);
}

/// Whether the agent's tools include the one named `tool_name`.
pub open spec fn agent_has_tool(agent_tools: Seq<String>, tool_name: Seq<char>) -> bool {
    exists|i: int| 0 <= i < agent_tools.len() && (#[trigger] agent_tools[i])@ == tool_name
}

/// Why an agent with the tools `agent_tools` may not run the tool named
/// `tool_name`, or `None` when it may.
pub fn tool_access_problem(agent_tools: &Vec<String>, tool_name: &str) -> (r: Option<String>)
    ensures
        agent_has_tool(agent_tools@, tool_name@) ==> r is None,
        !agent_has_tool(agent_tools@, tool_name@) ==> (r matches Some(m) && m@ == "Agent does not have access to tool: "@
            + tool_name@),
{
    let mut i: usize = 0;
    while i < agent_tools.len()
        invariant
            i <= agent_tools.len(),
            forall|j: int| 0 <= j < i ==> (#[trigger] agent_tools@[j])@ != tool_name@,
        decreases agent_tools.len() - i,
    {
        if same_text(agent_tools[i].as_str(), tool_name) {
            return None;
        }
        i = i + 1;
    }
    Some(concat2("Agent does not have access to tool: ", tool_name))
}

/// The message for a tool that is not registered.
pub fn tool_not_found_text(tool_name: &str) -> (s: String)
    ensures
        s@ == "Tool not found: "@ + tool_name@,
{
    concat2("Tool not found: ", tool_name)
}

/// The system message that records a tool being run with the parameters
/// whose JSON text is `parameters`.
pub fn invocation_text(tool_name: &str, parameters: &str) -> (s: String)
    ensures
        s@ == "Executing tool '"@ + tool_name@ + "' with parameters: "@ + parameters@,
{
    let mut s = concat3("Executing tool '", tool_name, "' with parameters: ");
    s.append(parameters);
    s
}

/// The message for a tool run that failed with `reason`.
pub fn execution_failure_text(reason: &str) -> (s: String)
    ensures
        s@ == "Tool execution failed: "@ + reason@,
{
    concat2("Tool execution failed: ", reason)
}

/// The content of the message that carries a tool's output: a string output
/// as it is, any other output as its rendered JSON text `rendered`.
pub fn tool_output_text(output: &JsonValue, rendered: &str) -> (s: String)
    ensures
        output matches JsonValue::String(t) ==> s@ == t@,
        !(output is String) ==> s@ == rendered@,
{
    match output {
        JsonValue::String(t) => t.clone(),
        _ => String::from_str(rendered),
    }
}

/// The first required parameter that has no declared type, as the message
/// that names it.
pub open spec fn first_untyped(required: Seq<String>, types: Seq<(String, String)>) -> Option<Seq<char>>
    decreases required.len(),
{
    if required.len() == 0 {
        None
    } else if declared_type(types, required[0]@) is None {
        Some("Type not specified for required parameter '"@ + required[0]@ + "'"@)
    } else {
        first_untyped(required.drop_first(), types)
    }
}

/// Why a tool cannot be registered, the first of: a blank name, a blank
/// description, a name that another tool has (`name_taken`), a required
/// parameter without a declared type.
pub open spec fn registration_refusal(
    name: Seq<char>,
    description: Seq<char>,
    name_taken: bool,
    required: Seq<String>,
    types: Seq<(String, String)>,
) -> Option<Seq<char>> {
    if !has_content(name) {
        Some("Tool name cannot be empty"@)
    } else if !has_content(description) {
        Some("Tool description cannot be empty"@)
    } else if name_taken {
        Some("Tool with name '"@ + name + "' already exists"@)
    } else {
        first_untyped(required, types)
    }
}

/// Why a tool named `name` with `description`, requiring the parameters
/// `required` of the declared types `types`, cannot be registered, or
/// `None` when it can (see `registration_refusal`).
pub fn registration_problem(
    name: &str,
    description: &str,
    name_taken: bool,
    required: &Vec<String>,
    types: &Vec<(String, String)>,
) -> (r: Option<String>)
    ensures
        match r {
            Some(m) => registration_refusal(name@, description@, name_taken, required@, types@) == Some(m@),
            None => registration_refusal(name@, description@, name_taken, required@, types@) is None,
        },
{
    if is_blank(name) {
        return Some(String::from_str("Tool name cannot be empty"));
    }
    if is_blank(description) {
        return Some(String::from_str("Tool description cannot be empty"));
    }
    if name_taken {
        return Some(concat3("Tool with name '", name, "' already exists"));
    }
    let mut i: usize = 0;
    assert(required@.skip(0) =~= required@);
    while i < required.len()
        invariant
            i <= required.len(),
            first_untyped(required@.skip(i as int), types@) == first_untyped(required@, types@),
            registration_refusal(name@, description@, name_taken, required@, types@) == first_untyped(
                required@,
                types@,
            ),
        decreases required.len() - i,
    {
        assert(required@.skip(i as int).drop_first() =~= required@.skip(i + 1));
        assert(required@.skip(i as int)[0] == required@[i as int]);
        if lookup_type(types, &required[i]).is_none() {
            return Some(concat3("Type not specified for required parameter '", required[i].as_str(), "'"));
        }
        i = i + 1;
    }
    None
}

/// The views of a tool's declared required parameters and types.
pub open spec fn declaration_view(tool: Option<(&Vec<String>, &Vec<(String, String)>)>) -> Option<
    (Seq<String>, Seq<(String, String)>),
> {
    match tool {
        Some(t) => Some((t.0@, t.1@)),
        None => None,
    }
}

/// Why an agent with the tools `agent_tools` may not run the tool named
/// `tool_name` with `params`, the first of: the agent lacks the tool, no
/// tool of that name is registered (`tool` is `None`), or the parameters do
/// not fit what the tool declares (see `first_problem`).
pub open spec fn tool_run_refusal(
    agent_tools: Seq<String>,
    tool_name: Seq<char>,
    tool: Option<(Seq<String>, Seq<(String, String)>)>,
    params: Seq<(String, JsonValue)>,
) -> Option<Seq<char>> {
    if !agent_has_tool(agent_tools, tool_name) {
        Some("Agent does not have access to tool: "@ + tool_name)
    } else {
        match tool {
            None => Some("Tool not found: "@ + tool_name),
            Some(t) => first_problem(t.0, t.1, params),
        }
    }
}

/// Whether a tool run may go ahead (see `tool_run_refusal`): `tool` is the
/// registered tool's required parameters and declared types, if a tool of
/// that name is registered.
pub fn tool_run_check(
    agent_tools: &Vec<String>,
    tool_name: &str,
    tool: Option<(&Vec<String>, &Vec<(String, String)>)>,
    params: &Vec<(String, JsonValue)>,
) -> (r: Result<(), String>)
    requires
        member_names_distinct(params@),
    ensures
        match tool_run_refusal(agent_tools@, tool_name@, declaration_view(tool), params@) {
            Some(m) => r matches Err(e) && e@ == m,
            None => r is Ok,
        },
{
    if let Some(m) = tool_access_problem(agent_tools, tool_name) {
        return Err(m);
    }
    match tool {
        None => Err(tool_not_found_text(tool_name)),
        Some(t) => match first_parameter_error(t.0, t.1, params) {
            Some(m) => Err(m),
            None => Ok(()),
        },
    }
}

} // verus!
