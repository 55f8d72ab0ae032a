//! Input sanitizing and validation failures.

use vstd::prelude::*;
use crate::errors::concat2;
use crate::json::{json_well_formed, JsonValue};

verus! {

/// Why input was refused.
#[derive(Debug)]
pub enum ValidationMiddlewareError {
    ValidationError(String),
    InvalidInput(String),
    Internal(String),
}

/// The message of a validation failure.
pub open spec fn validation_failure_text(e: ValidationMiddlewareError) -> Seq<char> {
    match e {
        ValidationMiddlewareError::ValidationError(m) => "Validation error: "@ + m@,
        ValidationMiddlewareError::InvalidInput(m) => "Invalid input: "@ + m@,
        ValidationMiddlewareError::Internal(m) => "Internal error: "@ + m@,
    }
}

impl ValidationMiddlewareError {
    /// The message of this failure.
    pub fn to_string(&self) -> (s: String)
        ensures
            s@ == validation_failure_text(*self),
    {
        match self {
            ValidationMiddlewareError::ValidationError(m) => concat2("Validation error: ", m.as_str()),
            ValidationMiddlewareError::InvalidInput(m) => concat2("Invalid input: ", m.as_str()),
            ValidationMiddlewareError::Internal(m) => concat2("Internal error: ", m.as_str()),
        }
    }
}

/// What `ammonia::clean` makes of the text `text`.
pub uninterp spec fn html_clean(text: Seq<char>) -> Seq<char>;

/// `ammonia::clean`: removes from an HTML fragment whatever its default
/// policy does not allow (scripts, event attributes, unknown tags). The
/// result depends on the text alone and is named `html_clean`.
#[verifier::external_body]
fn ammonia_clean(s: &str) -> (r: String)
    ensures
        r@ == html_clean(s@),
{
    ammonia::clean(s)
}

/// Whether `output` is `input` with every string value cleaned: the shape,
/// the member names, the numbers, booleans and nulls stay as they are.
pub open spec fn sanitized(input: JsonValue, output: JsonValue) -> bool
    decreases input,
{
    match input {
        JsonValue::Null => output is Null,
        JsonValue::Bool(b) => output == JsonValue::Bool(b),
        JsonValue::Number(n) => output matches JsonValue::Number(m) && m@ == n@,
        JsonValue::String(s) => output matches JsonValue::String(t) && t@ == html_clean(s@),
        JsonValue::Array(xs) => output matches JsonValue::Array(ys) && ys@.len() == xs@.len() && forall|i: int|
            0 <= i < xs@.len() ==> sanitized(#[trigger] xs@[i], ys@[i]),
        JsonValue::Object(xs) => output matches JsonValue::Object(ys) && ys@.len() == xs@.len() && forall|i: int|
            0 <= i < xs@.len() ==> (#[trigger] xs@[i]).0@ == ys@[i].0@ && sanitized(xs@[i].1, ys@[i].1),
    }
}

/// What checking the JSON text `data` against the JSON Schema text
/// `schema` decides: `None` when either text is not JSON or the schema does
/// not compile, otherwise whether `jsonschema` finds no violation of the
/// schema in the data.
pub uninterp spec fn schema_check(data: Seq<char>, schema: Seq<char>) -> Option<bool>;

/// Both texts are read with `serde_json::from_str`, the schema is compiled
/// with `jsonschema::validator_for` and the data is checked with the
/// validator's `iter_errors`; each violation and each failure is given by
/// its `Display` text. With the crate's default features off, references
/// to remote schemas are refused alike on every call, so whether the texts
/// are read and compiled, and whether violations are found, depend on the
/// two texts alone (named `schema_check`). Claimed: a list comes back
/// exactly when the check could be made, and it is empty exactly when the
/// data meets the schema. Left unsaid: the messages themselves and their
/// order (the crate walks some keywords through hash sets), the text of a
/// failure, and that the call returns at all (the crate panics on some
/// malformed internal states).
#[verifier::external_body]
fn check_against_schema(data: &str, schema: &str) -> (r: Result<Vec<String>, String>)
    ensures
        r is Ok <==> schema_check(data@, schema@) is Some,
        r matches Ok(v) ==> (v.len() == 0 <==> schema_check(data@, schema@) == Some(true)),
{
    let schema: serde_json::Value = serde_json::from_str(schema).map_err(|e| e.to_string())?;
    let data: serde_json::Value = serde_json::from_str(data).map_err(|e| e.to_string())?;
    let validator = jsonschema::validator_for(&schema).map_err(|e| e.to_string())?;
    let messages: Vec<String> = validator.iter_errors(&data).map(|e| e.to_string()).collect();
    Ok(messages)
}

/// The hexadecimal digit for `d < 16`, in lower case.
pub open spec fn lower_hex_digit(d: nat) -> char {
    "0123456789abcdef"@[d as int]
}

/// How `c` stands inside a JSON string: quote, backslash and the control
/// characters escaped (by their short forms where JSON has one, as `\u00`
/// and two hexadecimal digits otherwise), everything else as it is.
pub open spec fn json_char_text(c: char) -> Seq<char> {
    let u = c as u32;
    if c == '"' {
        seq!['\\', '"']
    } else if c == '\\' {
        seq!['\\', '\\']
    } else if u == 8 {
        seq!['\\', 'b']
    } else if u == 9 {
        seq!['\\', 't']
    } else if u == 10 {
        seq!['\\', 'n']
    } else if u == 12 {
        seq!['\\', 'f']
    } else if u == 13 {
        seq!['\\', 'r']
    } else if u < 0x20 {
        seq!['\\', 'u', '0', '0', lower_hex_digit((u / 16) as nat), lower_hex_digit((u % 16) as nat)]
    } else {
        seq![c]
    }
}

/// The characters of `s` as they stand inside a JSON string.
pub open spec fn json_escaped(s: Seq<char>) -> Seq<char>
    decreases s.len(),
{
    if s.len() == 0 {
        s
    } else {
        json_escaped(s.drop_last()) + json_char_text(s.last())
    }
}

/// The JSON strings of `items`, separated by commas.
pub open spec fn json_string_items(items: Seq<Seq<char>>) -> Seq<char>
    decreases items.len(),
{
    let q = seq!['"'] + json_escaped(items.last()) + seq!['"'];
    if items.len() == 0 {
        Seq::empty()
    } else if items.len() == 1 {
        q
    } else {
        json_string_items(items.drop_last()) + seq![','] + q
    }
}

/// The compact JSON text of a list of strings.
pub open spec fn json_strings_text(items: Seq<Seq<char>>) -> Seq<char> {
    seq!['['] + json_string_items(items) + seq![']']
}

/// `serde_json::to_string` of a list of strings: a compact JSON array of
/// JSON strings (see `json_strings_text`). It cannot fail for strings.
#[verifier::external_body]
fn strings_to_json(items: &Vec<String>) -> (s: String)
    ensures
        s@ == json_strings_text(items.deep_view()),
{
    serde_json::to_string(items).unwrap_or_default()
}

/// What the report of a schema check gives: nothing when it found no
/// violation, the violations as a JSON array of their messages when it found
/// some, and an internal failure when the check could not be made.
pub open spec fn schema_outcome(report: Result<Seq<Seq<char>>, Seq<char>>, r: Result<(), ValidationMiddlewareError>) -> bool {
    match report {
        Err(m) => r matches Err(ValidationMiddlewareError::Internal(t)) && t@ == "Failed to compile schema: "@ + m,
        Ok(v) => if v.len() == 0 {
            r is Ok
        } else {
            r matches Err(ValidationMiddlewareError::ValidationError(t)) && t@ == json_strings_text(v)
        },
    }
}

/// The view of a schema check's report.
pub open spec fn report_view(report: Result<Vec<String>, String>) -> Result<Seq<Seq<char>>, Seq<char>> {
    match report {
        Ok(v) => Ok(v.deep_view()),
        Err(m) => Err(m@),
    }
}

/// The answer to a schema check that gave `report` (see `schema_outcome`).
pub fn schema_verdict(report: Result<Vec<String>, String>) -> (r: Result<(), ValidationMiddlewareError>)
    ensures
        schema_outcome(report_view(report), r),
{
    match report {
        Err(m) => Err(ValidationMiddlewareError::Internal(concat2("Failed to compile schema: ", m.as_str()))),
        Ok(v) => {
            if v.len() == 0 {
                Ok(())
            } else {
                Err(ValidationMiddlewareError::ValidationError(strings_to_json(&v)))
            }
        },
    }
}

/// Input validation for commands.
pub struct ValidationMiddleware {}

impl ValidationMiddleware {
    /// A new middleware.
    pub fn new() -> (m: Self) {
        ValidationMiddleware {}
    }

    /// Checks the JSON text `data` against the JSON Schema text `schema`
    /// (see `schema_check`): it succeeds where the data meets the schema,
    /// answers data that does not with a JSON array of the violations'
    /// messages, and texts that cannot be read or a schema that does not
    /// compile with an internal failure. Which messages come, `jsonschema`
    /// decides (see `schema_verdict` for the answer to each report).
    pub fn validate_json(&self, data: &str, schema: &str) -> (r: Result<(), ValidationMiddlewareError>)
        ensures
            schema_check(data@, schema@) == Some(true) ==> r is Ok,
            schema_check(data@, schema@) == Some(false) ==> (r matches Err(
                ValidationMiddlewareError::ValidationError(t),
            ) && exists|v: Seq<Seq<char>>| v.len() > 0 && t@ == json_strings_text(v)),
            schema_check(data@, schema@) is None ==> (r matches Err(ValidationMiddlewareError::Internal(t))
                && exists|m: Seq<char>| t@ == "Failed to compile schema: "@ + m),
    {
        let report = check_against_schema(data, schema);
        let ghost rv = report_view(report);
        let r = schema_verdict(report);
        proof {
            match rv {
                Ok(v) => {
                    if v.len() > 0 {
                        assert(v.len() > 0 && r->Err_0->ValidationError_0@ == json_strings_text(v));
                    }
                },
                Err(m) => {
                    assert(r->Err_0->Internal_0@ == "Failed to compile schema: "@ + m);
                },
            }
        }
        r
    }

    /// `data` with every string in it cleaned of unsafe HTML; a well-formed
    /// value stays well-formed.
    pub fn sanitize(&self, data: &JsonValue) -> (r: JsonValue)
        requires
            json_well_formed(*data),
        ensures
            sanitized(*data, r),
            json_well_formed(r),
        decreases data,
    {
        match data {
            JsonValue::Null => JsonValue::Null,
            JsonValue::Bool(b) => JsonValue::Bool(*b),
            JsonValue::Number(n) => JsonValue::Number(n.clone()),
            JsonValue::String(s) => JsonValue::String(ammonia_clean(s.as_str())),
            JsonValue::Array(xs) => {
                let mut ys: Vec<JsonValue> = Vec::new();
                let mut i: usize = 0;
                while i < xs.len()
                    invariant
                        i <= xs.len(),
                        ys@.len() == i,
                        *data == JsonValue::Array(*xs),
                        json_well_formed(*data),
                        forall|j: int| 0 <= j < i ==> sanitized(#[trigger] xs@[j], ys@[j]),
                        forall|j: int| 0 <= j < i ==> json_well_formed(#[trigger] ys@[j]),
                    decreases xs.len() - i,
                {
                    proof {
                        assert(decreases_to!(*data => data->Array_0));
                        assert(decreases_to!(data->Array_0 => xs@));
                        assert(decreases_to!(xs@ => xs@[i as int]));
                    }
                    let y = self.sanitize(&xs[i]);
                    ys.push(y);
                    i = i + 1;
                }
                JsonValue::Array(ys)
            },
            JsonValue::Object(xs) => {
                let mut ys: Vec<(String, JsonValue)> = Vec::new();
                let mut i: usize = 0;
                while i < xs.len()
                    invariant
                        i <= xs.len(),
                        ys@.len() == i,
                        *data == JsonValue::Object(*xs),
                        json_well_formed(*data),
                        forall|j: int|
                            0 <= j < i ==> (#[trigger] xs@[j]).0@ == ys@[j].0@ && sanitized(xs@[j].1, ys@[j].1),
                        forall|j: int| 0 <= j < i ==> json_well_formed((#[trigger] ys@[j]).1),
                    decreases xs.len() - i,
                {
                    proof {
                        assert(decreases_to!(*data => data->Object_0));
                        assert(decreases_to!(data->Object_0 => xs@));
                        assert(decreases_to!(xs@ => xs@[i as int]));
                        assert(decreases_to!(xs@[i as int] => xs@[i as int].1));
                    }
                    let y = self.sanitize(&xs[i].1);
                    ys.push((xs[i].0.clone(), y));
                    i = i + 1;
                }
                proof {
                    assert forall|a: int, b: int|
                        0 <= a < ys@.len() && 0 <= b < ys@.len() && a != b implies (#[trigger] ys@[a]).0@
                        != (#[trigger] ys@[b]).0@ by {
                        assert(xs@[a].0@ == ys@[a].0@);
                        assert(xs@[b].0@ == ys@[b].0@);
                    }
                }
                JsonValue::Object(ys)
            },
        }
    }
}

} // verus!
