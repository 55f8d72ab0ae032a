//! Versioned storage of agent prompts, with a record of what each update
//! changed.

use vstd::prelude::*;
use std::collections::HashMap;
use crate::ids::{new_uuid, now_micros, uuid_text, uuid_to_string};
use crate::application::memory_manager::copy_opt_string;
use crate::text::{
    lemma_decimal_parses, lemma_split_dotted,
    chars_of, parse_u32, parses_as_u32, split_char, split_on, u32_value, u64_to_string, decimal, push_char,
};

verus! {

broadcast use vstd::std_specs::hash::group_hash_axioms;

/// One version of an agent's prompt.
#[derive(Debug)]
pub struct VersionedPrompt {
    pub id: u128,
    pub agent_id: u128,
    pub version: String,
    pub system_prompt: String,
    pub instructions: Option<String>,
    pub created_at: i64,
    pub updated_at: i64,
}

impl Clone for VersionedPrompt {
    fn clone(&self) -> (r: Self)
        ensures
            r == *self,
    {
        VersionedPrompt {
            id: self.id,
            agent_id: self.agent_id,
            version: self.version.clone(),
            system_prompt: self.system_prompt.clone(),
            instructions: copy_opt_string(&self.instructions),
            created_at: self.created_at,
            updated_at: self.updated_at,
        }
    }
}

/// A changed field between two prompt versions.
#[derive(Debug)]
pub struct PromptDiff {
    pub field: String,
    pub old_value: Option<String>,
    pub new_value: Option<String>,
}

impl Clone for PromptDiff {
    fn clone(&self) -> (r: Self)
        ensures
            r == *self,
    {
        PromptDiff {
            field: self.field.clone(),
            old_value: copy_opt_string(&self.old_value),
            new_value: copy_opt_string(&self.new_value),
        }
    }
}

/// The record of one prompt update.
#[derive(Debug)]
pub struct PromptChange {
    pub from_version: String,
    pub to_version: String,
    pub changed_at: i64,
    pub changes: Vec<PromptDiff>,
}

impl Clone for PromptChange {
    fn clone(&self) -> (r: Self)
        ensures
            r.from_version == self.from_version,
            r.to_version == self.to_version,
            r.changed_at == self.changed_at,
            r.changes@ == self.changes@,
    {
        let mut changes: Vec<PromptDiff> = Vec::new();
        let mut i: usize = 0;
        while i < self.changes.len()
            invariant
                i <= self.changes@.len(),
                changes@ == self.changes@.take(i as int),
            decreases self.changes@.len() - i,
        {
            changes.push(self.changes[i].clone());
            assert(self.changes@.take(i + 1) =~= self.changes@.take(i as int).push(self.changes@[i as int]));
            i = i + 1;
        }
        assert(self.changes@.take(self.changes@.len() as int) =~= self.changes@);
        PromptChange {
            from_version: self.from_version.clone(),
            to_version: self.to_version.clone(),
            changed_at: self.changed_at,
            changes,
        }
    }
}

// ---------------------------------------------------------------------------
// Version strings
// ---------------------------------------------------------------------------

/// Whether `v` is a version string: three dot-separated pieces that each
/// read as a `u32`.
pub open spec fn valid_version(v: Seq<char>) -> bool {
    let p = split_char(v, '.');
    &&& p.len() == 3
    &&& parses_as_u32(p[0])
    &&& parses_as_u32(p[1])
    &&& parses_as_u32(p[2])
}

/// The numbers of the pieces that read as a `u32`, in order.
pub open spec fn piece_numbers(p: Seq<Seq<char>>) -> Seq<u32>
    decreases p.len(),
{
    if p.len() == 0 {
        Seq::<u32>::empty()
    } else {
        let r = piece_numbers(p.drop_last());
        if parses_as_u32(p.last()) {
            r.push(u32_value(p.last()) as u32)
        } else {
            r
        }
    }
}

/// The key by which versions are ordered: the numbers of its dot-separated
/// pieces, skipping pieces that are not numbers.
pub open spec fn version_key(v: Seq<char>) -> Seq<u32> {
    piece_numbers(split_char(v, '.'))
}

/// Lexicographic order of number sequences: -1, 0 or 1 as `a` comes
/// before, equals or comes after `b` (a proper prefix comes first).
pub open spec fn lex_order(a: Seq<u32>, b: Seq<u32>) -> int
    decreases a.len(),
{
    if a.len() == 0 && b.len() == 0 {
        0
    } else if a.len() == 0 {
        -1
    } else if b.len() == 0 {
        1
    } else if a[0] < b[0] {
        -1
    } else if a[0] > b[0] {
        1
    } else {
        lex_order(a.drop_first(), b.drop_first())
    }
}

/// The lexicographic order is a total order.
pub proof fn lemma_lex_order(a: Seq<u32>, b: Seq<u32>, c: Seq<u32>)
    ensures
        lex_order(a, a) == 0,
        lex_order(a, b) == -lex_order(b, a),
        -1 <= lex_order(a, b) <= 1,
        lex_order(a, b) == 0 ==> a == b,
        lex_order(a, b) <= 0 && lex_order(b, c) <= 0 ==> lex_order(a, c) <= 0,
        lex_order(a, b) < 0 && lex_order(b, c) <= 0 ==> lex_order(a, c) < 0,
        lex_order(a, b) <= 0 && lex_order(b, c) < 0 ==> lex_order(a, c) < 0,
    decreases a.len(),
{
    if a.len() > 0 {
        if b.len() > 0 && c.len() > 0 {
            lemma_lex_order(a.drop_first(), b.drop_first(), c.drop_first());
        } else if b.len() > 0 {
            lemma_lex_order(a.drop_first(), b.drop_first(), b.drop_first());
        } else {
            lemma_lex_order(a.drop_first(), a.drop_first(), a.drop_first());
        }
        if lex_order(a, b) == 0 && b.len() > 0 {
            assert(a =~= seq![a[0]] + a.drop_first());
            assert(b =~= seq![b[0]] + b.drop_first());
        }
    } else {
        if b.len() > 0 && c.len() > 0 {
        }
    }
}

/// The numbers of the pieces that read as a `u32`.
fn piece_numbers_exec(parts: &Vec<Vec<char>>) -> (r: Vec<u32>)
    ensures
        r@ == piece_numbers(parts.deep_view()),
{
    let mut r: Vec<u32> = Vec::new();
    let mut i: usize = 0;
    while i < parts.len()
        invariant
            i <= parts@.len(),
            r@ == piece_numbers(parts.deep_view().take(i as int)),
        decreases parts@.len() - i,
    {
        assert(parts.deep_view().take(i + 1).drop_last() =~= parts.deep_view().take(i as int));
        assert(parts.deep_view()[i as int] =~= parts@[i as int]@);
        match parse_u32(parts[i].as_slice()) {
            Some(v) => r.push(v),
            None => {},
        }
        i = i + 1;
    }
    assert(parts.deep_view().take(parts@.len() as int) =~= parts.deep_view());
    r
}

/// The version text `a.b.c`.
pub open spec fn dotted(a: nat, b: nat, c: nat) -> Seq<char> {
    decimal(a) + seq!['.'] + decimal(b) + seq!['.'] + decimal(c)
}

/// The version that `increment_version` gives for a valid version `v` is a
/// valid version that comes after `v` in version order.
pub proof fn lemma_increment_is_newer(v: Seq<char>)
    requires
        valid_version(v),
        u32_value(split_char(v, '.')[2]) < u32::MAX,
    ensures
        valid_version(
            dotted(
                u32_value(split_char(v, '.')[0]),
                u32_value(split_char(v, '.')[1]),
                u32_value(split_char(v, '.')[2]) + 1,
            ),
        ),
        lex_order(
            version_key(
                dotted(
                    u32_value(split_char(v, '.')[0]),
                    u32_value(split_char(v, '.')[1]),
                    u32_value(split_char(v, '.')[2]) + 1,
                ),
            ),
            version_key(v),
        ) > 0,
{
    let p = split_char(v, '.');
    let a = u32_value(p[0]);
    let b = u32_value(p[1]);
    let c = u32_value(p[2]);
    let s = dotted(a, b, c + 1);
    lemma_split_dotted(a, b, c + 1);
    lemma_decimal_parses(a as u32);
    lemma_decimal_parses(b as u32);
    lemma_decimal_parses((c + 1) as u32);
    reveal_with_fuel(piece_numbers, 4);
    reveal_with_fuel(lex_order, 4);
    let q = split_char(s, '.');
    assert(q.drop_last().drop_last().drop_last() =~= Seq::<Seq<char>>::empty());
    assert(p.drop_last().drop_last().drop_last() =~= Seq::<Seq<char>>::empty());
    assert(version_key(s) =~= seq![a as u32, b as u32, (c + 1) as u32]);
    assert(version_key(v) =~= seq![a as u32, b as u32, c as u32]);
    let ks = version_key(s);
    let kv = version_key(v);
    assert(ks.drop_first() =~= seq![b as u32, (c + 1) as u32]);
    assert(kv.drop_first() =~= seq![b as u32, c as u32]);
    assert(ks.drop_first().drop_first() =~= seq![(c + 1) as u32]);
    assert(kv.drop_first().drop_first() =~= seq![c as u32]);
}

/// Orders two version strings by their keys: -1, 0 or 1.
pub fn version_order(v1: &str, v2: &str) -> (r: i8)
    ensures
        r == lex_order(version_key(v1@), version_key(v2@)),
{
    let c1 = chars_of(v1);
    let c2 = chars_of(v2);
    let a = piece_numbers_exec(&split_on(c1.as_slice(), '.'));
    let b = piece_numbers_exec(&split_on(c2.as_slice(), '.'));
    let mut i: usize = 0;
    assert(a@.skip(0) =~= a@);
    assert(b@.skip(0) =~= b@);
    while i < a.len() && i < b.len()
        invariant
            a@ == version_key(v1@),
            b@ == version_key(v2@),
            i <= a@.len(),
            i <= b@.len(),
            forall|j: int| 0 <= j < i ==> a@[j] == b@[j],
            lex_order(a@, b@) == lex_order(a@.skip(i as int), b@.skip(i as int)),
        decreases a@.len() - i,
    {
        assert(a@.skip(i as int)[0] == a@[i as int]);
        assert(b@.skip(i as int)[0] == b@[i as int]);
        if a[i] < b[i] {
            return -1;
        }
        if a[i] > b[i] {
            return 1;
        }
        assert(a@.skip(i as int).drop_first() =~= a@.skip(i + 1));
        assert(b@.skip(i as int).drop_first() =~= b@.skip(i + 1));
        i = i + 1;
    }
    if i < a.len() {
        1
    } else if i < b.len() {
        -1
    } else {
        0
    }
}

/// Orders two version strings by their keys, as `Vec<u32>`'s `cmp` does.
pub fn compare_versions(v1: &str, v2: &str) -> (o: std::cmp::Ordering)
    ensures
        lex_order(version_key(v1@), version_key(v2@)) < 0 <==> o == std::cmp::Ordering::Less,
        lex_order(version_key(v1@), version_key(v2@)) == 0 <==> o == std::cmp::Ordering::Equal,
        lex_order(version_key(v1@), version_key(v2@)) > 0 <==> o == std::cmp::Ordering::Greater,
{
    let r = version_order(v1, v2);
    if r < 0 {
        std::cmp::Ordering::Less
    } else if r == 0 {
        std::cmp::Ordering::Equal
    } else {
        std::cmp::Ordering::Greater
    }
}

/// Whether `version` is a version string.
pub fn is_valid_version(version: &str) -> (b: bool)
    ensures
        b == valid_version(version@),
{
    let cs = chars_of(version);
    let parts = split_on(cs.as_slice(), '.');
    if parts.len() != 3 {
        return false;
    }
    assert(parts.deep_view()[0] =~= parts@[0]@);
    assert(parts.deep_view()[1] =~= parts@[1]@);
    assert(parts.deep_view()[2] =~= parts@[2]@);
    parse_u32(parts[0].as_slice()).is_some() && parse_u32(parts[1].as_slice()).is_some() && parse_u32(
        parts[2].as_slice(),
    ).is_some()
}

/// The version after `version`: the same major and minor numbers and the
/// next patch number. A string that is not three dot-separated pieces, or
/// whose pieces are not numbers, is refused with the first failing reason.
pub fn increment_version(version: &str) -> (r: Result<String, String>)
    requires
        valid_version(version@) ==> u32_value(split_char(version@, '.')[2]) < u32::MAX,
    ensures
        split_char(version@, '.').len() != 3 ==> (r matches Err(m) && m@ == "Invalid version format"@),
        split_char(version@, '.').len() == 3 && !parses_as_u32(split_char(version@, '.')[0]) ==> (r matches Err(m)
            && m@ == "Invalid major version"@),
        split_char(version@, '.').len() == 3 && parses_as_u32(split_char(version@, '.')[0]) && !parses_as_u32(
            split_char(version@, '.')[1],
        ) ==> (r matches Err(m) && m@ == "Invalid minor version"@),
        split_char(version@, '.').len() == 3 && parses_as_u32(split_char(version@, '.')[0]) && parses_as_u32(
            split_char(version@, '.')[1],
        ) && !parses_as_u32(split_char(version@, '.')[2]) ==> (r matches Err(m) && m@ == "Invalid patch version"@),
        valid_version(version@) ==> (r matches Ok(s) && s@ == decimal(u32_value(split_char(version@, '.')[0]))
            + seq!['.'] + decimal(u32_value(split_char(version@, '.')[1])) + seq!['.'] + decimal(
            u32_value(split_char(version@, '.')[2]) + 1,
        )),
{
    let cs = chars_of(version);
    let parts = split_on(cs.as_slice(), '.');
    if parts.len() != 3 {
        return Err(String::from_str("Invalid version format"));
    }
    assert(parts.deep_view()[0] =~= parts@[0]@);
    assert(parts.deep_view()[1] =~= parts@[1]@);
    assert(parts.deep_view()[2] =~= parts@[2]@);
    let major = match parse_u32(parts[0].as_slice()) {
        Some(v) => v,
        None => {
            return Err(String::from_str("Invalid major version"));
        },
    };
    let minor = match parse_u32(parts[1].as_slice()) {
        Some(v) => v,
        None => {
            return Err(String::from_str("Invalid minor version"));
        },
    };
    let patch = match parse_u32(parts[2].as_slice()) {
        Some(v) => v,
        None => {
            return Err(String::from_str("Invalid patch version"));
        },
    };
    let mut s = u64_to_string(major as u64);
    push_char(&mut s, '.');
    let m = u64_to_string(minor as u64);
    s.append(m.as_str());
    push_char(&mut s, '.');
    let p = u64_to_string(patch as u64 + 1);
    s.append(p.as_str());
    Ok(s)
}

// ---------------------------------------------------------------------------
// Prompt manager
// ---------------------------------------------------------------------------

/// Whether some prompt of `h` has version `v`.
pub open spec fn has_version(h: Seq<VersionedPrompt>, v: Seq<char>) -> bool {
    exists|i: int| 0 <= i < h.len() && (#[trigger] h[i]).version@ == v
}

/// The first prompt of `h` with version `v`, if any.
pub open spec fn find_version(h: Seq<VersionedPrompt>, v: Seq<char>) -> Option<VersionedPrompt>
    decreases h.len(),
{
    if h.len() == 0 {
        None
    } else if h[0].version@ == v {
        Some(h[0])
    } else {
        find_version(h.drop_first(), v)
    }
}

/// Whether `h[j]` is the latest prompt of `h`: no prompt has a later
/// version, and every prompt after it has an earlier one.
pub open spec fn is_latest(h: Seq<VersionedPrompt>, j: int) -> bool {
    &&& 0 <= j < h.len()
    &&& forall|i: int| 0 <= i < h.len() ==> lex_order(version_key(#[trigger] h[i].version@), version_key(h[j].version@)) <= 0
    &&& forall|i: int| j < i < h.len() ==> lex_order(version_key(#[trigger] h[i].version@), version_key(h[j].version@)) < 0
}

/// Whether the prompts are in non-decreasing order of version.
pub open spec fn sorted_by_version(s: Seq<VersionedPrompt>) -> bool {
    forall|a: int, b: int| 0 <= a < b < s.len() ==> lex_order(version_key(#[trigger] s[a].version@), version_key(#[trigger] s[b].version@)) <= 0
}

/// Whether `out` holds the first `n` prompts of `list`, each once, in version
/// order with prompts of equal version key in their order in `list`: the
/// prompt at position `k` of `out` is the one at position `idx[k]` of `list`.
pub open spec fn placed(list: Seq<VersionedPrompt>, out: Seq<VersionedPrompt>, idx: Seq<int>, n: int) -> bool {
    &&& out.len() == n
    &&& idx.len() == n
    &&& forall|k: int| 0 <= k < n ==> 0 <= #[trigger] idx[k] < n && out[k] == list[idx[k]]
    &&& forall|a: int, b: int| 0 <= a < b < n ==> #[trigger] idx[a] != #[trigger] idx[b]
    &&& forall|a: int, b: int|
        0 <= a < b < n && lex_order(version_key(#[trigger] out[a].version@), version_key(#[trigger] out[b].version@))
            == 0 ==> idx[a] < idx[b]
}

/// Whether `out` is `list` sorted by version, prompts of equal version key
/// keeping their order in `list` (as a stable sort leaves them).
pub open spec fn stable_arrangement(list: Seq<VersionedPrompt>, out: Seq<VersionedPrompt>, idx: Seq<int>) -> bool {
    &&& placed(list, out, idx, list.len() as int)
    &&& sorted_by_version(out)
}

/// Whether the versions of `h` are pairwise different.
pub open spec fn versions_distinct(h: Seq<VersionedPrompt>) -> bool {
    forall|i: int, j: int| 0 <= i < h.len() && 0 <= j < h.len() && i != j ==> (#[trigger] h[i]).version@ != (#[trigger] h[j]).version@
}

/// The view of an optional string.
pub open spec fn opt_view(o: Option<String>) -> Option<Seq<char>> {
    match o {
        Some(s) => Some(s@),
        None => None,
    }
}

/// The differences between two prompts: the system prompt when its text
/// changed, then the instructions when they changed.
pub open spec fn prompt_diffs(
    old_system: Seq<char>,
    old_instructions: Option<String>,
    new_system: Seq<char>,
    new_instructions: Option<String>,
) -> Seq<(Seq<char>, Option<Seq<char>>, Option<Seq<char>>)> {
    let a = if old_system != new_system {
        seq![("system_prompt"@, Some(old_system), Some(new_system))]
    } else {
        Seq::empty()
    };
    let b = if opt_view(old_instructions) != opt_view(new_instructions) {
        seq![("instructions"@, opt_view(old_instructions), opt_view(new_instructions))]
    } else {
        Seq::empty()
    };
    a + b
}

/// What a list of differences records: when the system prompt changed,
/// its first entry is the system prompt with the old text as the old value
/// and the new text as the new value; when the instructions changed, its
/// last entry is the instructions, from the old ones to the new ones; and
/// nothing else is recorded.
pub proof fn lemma_diffs_run_from_old_to_new(
    old_system: Seq<char>,
    old_instructions: Option<String>,
    new_system: Seq<char>,
    new_instructions: Option<String>,
)
    ensures
        ({
            let d = prompt_diffs(old_system, old_instructions, new_system, new_instructions);
            &&& d.len() == (if old_system != new_system { 1int } else { 0int }) + (if opt_view(old_instructions)
                != opt_view(new_instructions) {
                1int
            } else {
                0int
            })
            &&& old_system != new_system ==> d[0].0 == "system_prompt"@ && d[0].1 == Some(old_system) && d[0].2
                == Some(new_system)
            &&& opt_view(old_instructions) != opt_view(new_instructions) ==> d.last().0 == "instructions"@
                && d.last().1 == opt_view(old_instructions) && d.last().2 == opt_view(new_instructions)
        }),
{
}

/// The view of a list of differences.
pub open spec fn diffs_view(d: Seq<PromptDiff>) -> Seq<(Seq<char>, Option<Seq<char>>, Option<Seq<char>>)> {
    d.map_values(|x: PromptDiff| (x.field@, opt_view(x.old_value), opt_view(x.new_value)))
}

/// Whether two optional strings are equal.
fn opt_string_eq(a: &Option<String>, b: &Option<String>) -> (r: bool)
    ensures
        r == (opt_view(*a) == opt_view(*b)),
{
    match (a, b) {
        (Some(x), Some(y)) => x.eq(y),
        (None, None) => true,
        _ => false,
    }
}

/// The fields that differ between an old and a new prompt.
pub fn calculate_changes(
    old_system: &str,
    old_instructions: &Option<String>,
    new_system: &str,
    new_instructions: &Option<String>,
) -> (d: Vec<PromptDiff>)
    ensures
        diffs_view(d@) == prompt_diffs(old_system@, *old_instructions, new_system@, *new_instructions),
        old_system@ != new_system@ ==> (d@.len() > 0 && d@[0].field@ == "system_prompt"@ && opt_view(
            d@[0].old_value,
        ) == Some(old_system@) && opt_view(d@[0].new_value) == Some(new_system@)),
        opt_view(*old_instructions) != opt_view(*new_instructions) ==> (d@.len() > 0 && d@.last().field@
            == "instructions"@ && opt_view(d@.last().old_value) == opt_view(*old_instructions) && opt_view(
            d@.last().new_value,
        ) == opt_view(*new_instructions)),
        old_system@ == new_system@ && opt_view(*old_instructions) == opt_view(*new_instructions) ==> d@.len() == 0,
{
    let mut diffs: Vec<PromptDiff> = Vec::new();
    let os = String::from_str(old_system);
    let ns = String::from_str(new_system);
    if !os.eq(&ns) {
        diffs.push(
            PromptDiff {
                field: String::from_str("system_prompt"),
                old_value: Some(String::from_str(old_system)),
                new_value: Some(String::from_str(new_system)),
            },
        );
    }
    if !opt_string_eq(old_instructions, new_instructions) {
        diffs.push(
            PromptDiff {
                field: String::from_str("instructions"),
                old_value: copy_opt_string(old_instructions),
                new_value: copy_opt_string(new_instructions),
            },
        );
    }
    assert(diffs_view(diffs@) =~= prompt_diffs(old_system@, *old_instructions, new_system@, *new_instructions));
    diffs
}

/// A message naming an agent: `prefix`, then the agent's identifier.
fn agent_message(prefix: &str, agent_id: u128) -> (s: String)
    ensures
        s@ == prefix@ + uuid_text(agent_id),
{
    let mut s = String::from_str(prefix);
    s.append(uuid_to_string(agent_id).as_str());
    s
}

/// Whether some prompt of the list has version `v`.
fn list_has_version(list: &Vec<VersionedPrompt>, v: &String) -> (b: bool)
    ensures
        b == has_version(list@, v@),
{
    let mut i: usize = 0;
    while i < list.len()
        invariant
            i <= list@.len(),
            forall|j: int| 0 <= j < i ==> (#[trigger] list@[j]).version@ != v@,
        decreases list@.len() - i,
    {
        if list[i].version.eq(v) {
            return true;
        }
        i = i + 1;
    }
    false
}

/// Prompts and change records of every agent.
pub struct PromptManager {
    prompts: HashMap<u128, Vec<VersionedPrompt>>,
    changes: HashMap<u128, Vec<PromptChange>>,
}

impl PromptManager {
    /// The prompt versions of an agent, in the order they were stored.
    pub closed spec fn history(self, agent_id: u128) -> Seq<VersionedPrompt> {
        if self.prompts@.contains_key(agent_id) {
            self.prompts@[agent_id]@
        } else {
            Seq::empty()
        }
    }

    /// The change records of an agent, oldest first.
    pub closed spec fn change_log(self, agent_id: u128) -> Seq<PromptChange> {
        if self.changes@.contains_key(agent_id) {
            self.changes@[agent_id]@
        } else {
            Seq::empty()
        }
    }

    /// Every stored prompt belongs to the agent it is stored under, has a
    /// valid version, and no agent has a version twice.
    pub closed spec fn wf(self) -> bool {
        &&& forall|a: u128| #[trigger] self.prompts@.contains_key(a) ==> self.prompts@[a]@.len() > 0
        &&& forall|a: u128| #[trigger] self.changes@.contains_key(a) ==> self.changes@[a]@.len() > 0
        &&& forall|a: u128| versions_distinct(#[trigger] self.history(a))
        &&& forall|a: u128, i: int|
            0 <= i < self.history(a).len() ==> (#[trigger] self.history(a)[i]).agent_id == a && valid_version(
                self.history(a)[i].version@,
            )
    }

    /// An empty manager.
    pub fn new() -> (m: Self)
        ensures
            m.wf(),
            forall|a: u128| m.history(a).len() == 0 && m.change_log(a).len() == 0,
    {
        PromptManager { prompts: HashMap::new(), changes: HashMap::new() }
    }

    /// Stores a new prompt version. A version that is not `X.Y.Z` with
    /// numbers is refused, and so is a version the agent already has;
    /// otherwise the prompt is appended to the agent's versions.
    pub fn store_prompt(&mut self, prompt: VersionedPrompt) -> (r: Result<VersionedPrompt, String>)
        requires
            old(self).wf(),
        ensures
            final(self).wf(),
            forall|a: u128| final(self).change_log(a) == old(self).change_log(a),
            !valid_version(prompt.version@) ==> (r matches Err(m)
                && m@ == "Invalid version format. Use semantic versioning (e.g., 1.0.0)"@),
            valid_version(prompt.version@) && has_version(old(self).history(prompt.agent_id), prompt.version@) ==> (
            r matches Err(m) && m@ == "Version "@ + prompt.version@ + " already exists for agent "@ + uuid_text(
                prompt.agent_id,
            )),
            r is Err ==> forall|a: u128| final(self).history(a) == old(self).history(a),
            valid_version(prompt.version@) && !has_version(old(self).history(prompt.agent_id), prompt.version@) ==> (
            r == Ok::<VersionedPrompt, String>(prompt) && final(self).history(prompt.agent_id) == old(self).history(
                prompt.agent_id,
            ).push(prompt) && forall|a: u128| a != prompt.agent_id ==> final(self).history(a) == old(self).history(a)),
    {
        if !is_valid_version(prompt.version.as_str()) {
            return Err(String::from_str("Invalid version format. Use semantic versioning (e.g., 1.0.0)"));
        }
        let agent = prompt.agent_id;
        let dup = match self.prompts.get(&agent) {
            Some(list) => list_has_version(list, &prompt.version),
            None => false,
        };
        if dup {
            let mut m = String::from_str("Version ");
            m.append(prompt.version.as_str());
            m.append(" already exists for agent ");
            m.append(uuid_to_string(agent).as_str());
            return Err(m);
        }
        let stored = prompt.clone();
        let mut list = match self.prompts.remove(&agent) {
            Some(l) => l,
            None => Vec::new(),
        };
        list.push(prompt);
        self.prompts.insert(agent, list);
        proof {
            assert forall|a: u128| versions_distinct(#[trigger] self.history(a)) by {
                if a == agent {
                    let h = self.history(a);
                    let o = old(self).history(a);
                    assert(h =~= o.push(stored));
                    assert forall|i: int, j: int| 0 <= i < h.len() && 0 <= j < h.len() && i != j implies (#[trigger] h[i]).version@ != (#[trigger] h[j]).version@ by {
                        if i < o.len() && j < o.len() {
                            assert(o[i] == h[i] && o[j] == h[j]);
                        } else if i < o.len() {
                            assert(o[i] == h[i]);
                        } else {
                            assert(o[j] == h[j]);
                        }
                    }
                } else {
                    assert(self.history(a) == old(self).history(a));
                }
            }
            assert forall|a: u128, i: int| 0 <= i < self.history(a).len() implies (#[trigger] self.history(a)[i]).agent_id == a
                && valid_version(self.history(a)[i].version@) by {
                if a == agent {
                    assert(self.history(a) =~= old(self).history(a).push(stored));
                    if i < old(self).history(a).len() {
                        assert(self.history(a)[i] == old(self).history(a)[i]);
                    }
                } else {
                    assert(self.history(a) == old(self).history(a));
                }
            }
            assert(self.history(agent) =~= old(self).history(agent).push(stored));
        }
        Ok(stored)
    }

    /// The version `version` of an agent's prompt.
    pub fn get_prompt(&self, agent_id: u128, version: &str) -> (r: Result<VersionedPrompt, String>)
        requires
            self.wf(),
        ensures
            find_version(self.history(agent_id), version@) matches Some(p) ==> r == Ok::<VersionedPrompt, String>(p),
            find_version(self.history(agent_id), version@) is None ==> (r matches Err(m) && m@ == "Prompt version "@
                + version@ + " not found for agent "@ + uuid_text(agent_id)),
    {
        let vs = String::from_str(version);
        match self.prompts.get(&agent_id) {
            Some(list) => {
                let mut i: usize = 0;
                assert(list@.skip(0) =~= list@);
                while i < list.len()
                    invariant
                        list@ == self.history(agent_id),
                        vs@ == version@,
                        i <= list@.len(),
                        find_version(list@, version@) == find_version(list@.skip(i as int), version@),
                    decreases list@.len() - i,
                {
                    assert(list@.skip(i as int)[0] == list@[i as int]);
                    assert(list@.skip(i as int).drop_first() =~= list@.skip(i + 1));
                    if list[i].version.eq(&vs) {
                        return Ok(list[i].clone());
                    }
                    i = i + 1;
                }
                assert(list@.skip(i as int).len() == 0);
            },
            None => {},
        }
        let mut m = String::from_str("Prompt version ");
        m.append(version);
        m.append(" not found for agent ");
        m.append(uuid_to_string(agent_id).as_str());
        Err(m)
    }

    /// The latest version of an agent's prompt: the last one among those
    /// with the greatest version.
    pub fn get_latest_prompt(&self, agent_id: u128) -> (r: Result<VersionedPrompt, String>)
        requires
            self.wf(),
        ensures
            self.history(agent_id).len() == 0 ==> (r matches Err(m) && m@ == "No prompts found for agent "@
                + uuid_text(agent_id)),
            self.history(agent_id).len() > 0 ==> (r matches Ok(p) && exists|j: int|
                is_latest(self.history(agent_id), j) && p == #[trigger] self.history(agent_id)[j]),
    {
        match self.prompts.get(&agent_id) {
            Some(list) => {
                if list.len() == 0 {
                    return Err(agent_message("No prompts found for agent ", agent_id));
                }
                let ghost h = list@;
                let mut best: usize = 0;
                let mut i: usize = 1;
                proof {
                    lemma_lex_order(version_key(h[0].version@), version_key(h[0].version@), version_key(h[0].version@));
                }
                while i < list.len()
                    invariant
                        h == list@,
                        h == self.history(agent_id),
                        1 <= i <= h.len(),
                        best < i,
                        forall|t: int| 0 <= t < i ==> lex_order(version_key(#[trigger] h[t].version@), version_key(h[best as int].version@)) <= 0,
                        forall|t: int| best < t < i ==> lex_order(version_key(#[trigger] h[t].version@), version_key(h[best as int].version@)) < 0,
                    decreases h.len() - i,
                {
                    let o = version_order(list[i].version.as_str(), list[best].version.as_str());
                    if o >= 0 {
                        let ghost old_best = best as int;
                        proof {
                            assert forall|t: int| 0 <= t < i + 1 implies lex_order(version_key(#[trigger] h[t].version@), version_key(h[i as int].version@)) <= 0 by {
                                lemma_lex_order(version_key(h[t].version@), version_key(h[old_best].version@), version_key(h[i as int].version@));
                                lemma_lex_order(version_key(h[i as int].version@), version_key(h[old_best].version@), version_key(h[t].version@));
                            }
                        }
                        best = i;
                    }
                    i = i + 1;
                }
                Ok(list[best].clone())
            },
            None => Err(agent_message("No prompts found for agent ", agent_id)),
        }
    }

    /// All versions of an agent's prompt, ordered by version.
    pub fn get_all_prompts(&self, agent_id: u128) -> (r: Result<Vec<VersionedPrompt>, String>)
        requires
            self.wf(),
        ensures
            self.history(agent_id).len() == 0 ==> (r matches Err(m) && m@ == "No prompts found for agent "@
                + uuid_text(agent_id)),
            self.history(agent_id).len() > 0 ==> (r matches Ok(v) && v@.to_multiset() == self.history(
                agent_id,
            ).to_multiset() && sorted_by_version(v@) && exists|idx: Seq<int>|
                stable_arrangement(self.history(agent_id), v@, idx)),
    {
        match self.prompts.get(&agent_id) {
            Some(list) => {
                let mut out: Vec<VersionedPrompt> = Vec::new();
                let mut i: usize = 0;
                let ghost mut idx: Seq<int> = Seq::empty();
                assert(list@.take(0) =~= out@);
                while i < list.len()
                    invariant
                        list@ == self.history(agent_id),
                        i <= list@.len(),
                        out@.to_multiset() == list@.take(i as int).to_multiset(),
                        sorted_by_version(out@),
                        placed(list@, out@, idx, i as int),
                    decreases list@.len() - i,
                {
                    let x = list[i].clone();
                    let mut p: usize = out.len();
                    while p > 0 && version_order(out[p - 1].version.as_str(), x.version.as_str()) > 0
                        invariant
                            p <= out@.len(),
                            sorted_by_version(out@),
                            forall|t: int| p <= t < out@.len() ==> lex_order(version_key(#[trigger] out@[t].version@), version_key(x.version@)) > 0,
                        decreases p,
                    {
                        p = p - 1;
                    }
                    let ghost before = out@;
                    proof {
                        if p > 0 {
                            lemma_lex_order(version_key(before[p - 1].version@), version_key(x.version@), version_key(x.version@));
                        }
                    }
                    out.insert(p, x);
                    proof {
                        let old_idx = idx;
                        idx = old_idx.insert(p as int, i as int);
                        assert forall|k: int| 0 <= k < out@.len() implies 0 <= #[trigger] idx[k] < i + 1 && out@[k]
                            == list@[idx[k]] by {
                            if k < p {
                                assert(idx[k] == old_idx[k] && out@[k] == before[k]);
                            } else if k > p {
                                assert(idx[k] == old_idx[k - 1] && out@[k] == before[k - 1]);
                            }
                        }
                        assert forall|a: int, b: int| 0 <= a < b < out@.len() implies #[trigger] idx[a] != #[trigger] idx[b] by {
                            if a < p && b < p {
                            } else if a < p && b > p {
                                assert(idx[b] == old_idx[b - 1]);
                            } else if a > p {
                                assert(idx[a] == old_idx[a - 1] && idx[b] == old_idx[b - 1]);
                            }
                        }
                        assert forall|a: int, b: int|
                            0 <= a < b < out@.len() && lex_order(
                                version_key(#[trigger] out@[a].version@),
                                version_key(#[trigger] out@[b].version@),
                            ) == 0 implies idx[a] < idx[b] by {
                            if a < p && b < p {
                                assert(out@[a] == before[a] && out@[b] == before[b]);
                            } else if a < p && b == p {
                                assert(idx[a] == old_idx[a]);
                            } else if a < p {
                                assert(out@[a] == before[a] && out@[b] == before[b - 1]);
                                assert(idx[b] == old_idx[b - 1]);
                            } else if a == p {
                                assert(out@[b] == before[b - 1]);
                                assert(lex_order(version_key(before[b - 1].version@), version_key(x.version@)) > 0);
                                lemma_lex_order(version_key(x.version@), version_key(before[b - 1].version@), version_key(x.version@));
                            } else {
                                assert(out@[a] == before[a - 1] && out@[b] == before[b - 1]);
                                assert(idx[a] == old_idx[a - 1] && idx[b] == old_idx[b - 1]);
                            }
                        }
                        assert(placed(list@, out@, idx, i + 1));
                        assert(list@.take(i + 1) =~= list@.take(i as int).push(list@[i as int]));
                        assert(out@ == before.insert(p as int, list@[i as int]));
                        vstd::seq_lib::to_multiset_insert(before, p as int, list@[i as int]);
                        vstd::seq_lib::to_multiset_build(list@.take(i as int), list@[i as int]);
                        assert forall|a: int, b: int| 0 <= a < b < out@.len() implies lex_order(
                            version_key(#[trigger] out@[a].version@),
                            version_key(#[trigger] out@[b].version@),
                        ) <= 0 by {
                            if a < p && b < p {
                                assert(out@[a] == before[a] && out@[b] == before[b]);
                            } else if a < p && b == p {
                                assert(out@[a] == before[a]);
                                lemma_lex_order(version_key(before[a].version@), version_key(before[p - 1].version@), version_key(x.version@));
                            } else if a < p {
                                assert(out@[a] == before[a] && out@[b] == before[b - 1]);
                            } else if a == p {
                                assert(out@[b] == before[b - 1]);
                                lemma_lex_order(version_key(x.version@), version_key(before[b - 1].version@), version_key(x.version@));
                            } else {
                                assert(out@[a] == before[a - 1] && out@[b] == before[b - 1]);
                            }
                        }
                    }
                    i = i + 1;
                }
                assert(list@.take(list@.len() as int) =~= list@);
                if list.len() == 0 {
                    return Err(agent_message("No prompts found for agent ", agent_id));
                }
                assert(stable_arrangement(list@, out@, idx));
                Ok(out)
            },
            None => Err(agent_message("No prompts found for agent ", agent_id)),
        }
    }

    /// The change records of an agent, oldest first.
    pub fn get_change_history(&self, agent_id: u128) -> (r: Result<Vec<PromptChange>, String>)
        requires
            self.wf(),
        ensures
            self.change_log(agent_id).len() == 0 ==> (r matches Err(m) && m@ == "No change history found for agent "@
                + uuid_text(agent_id)),
            self.change_log(agent_id).len() > 0 ==> (r matches Ok(v) && v@.len() == self.change_log(agent_id).len()
                && forall|i: int| 0 <= i < v@.len() ==> (#[trigger] v@[i]).from_version == self.change_log(agent_id)[i].from_version
                    && v@[i].to_version == self.change_log(agent_id)[i].to_version && v@[i].changes@
                    == self.change_log(agent_id)[i].changes@ && v@[i].changed_at == self.change_log(agent_id)[i].changed_at),
    {
        match self.changes.get(&agent_id) {
            Some(list) => {
                let mut out: Vec<PromptChange> = Vec::new();
                let mut i: usize = 0;
                while i < list.len()
                    invariant
                        list@ == self.change_log(agent_id),
                        i <= list@.len(),
                        out@.len() == i,
                        forall|t: int| 0 <= t < i ==> (#[trigger] out@[t]).from_version == list@[t].from_version
                            && out@[t].to_version == list@[t].to_version && out@[t].changes@ == list@[t].changes@
                            && out@[t].changed_at == list@[t].changed_at,
                    decreases list@.len() - i,
                {
                    out.push(list[i].clone());
                    i = i + 1;
                }
                Ok(out)
            },
            None => Err(agent_message("No change history found for agent ", agent_id)),
        }
    }

    /// Creates a new version of an agent's prompt from its latest one:
    /// records what changed from the latest version, then stores the new
    /// version as `store_prompt` does (the change is recorded even when the
    /// new version is then refused).
    pub fn update_prompt(
        &mut self,
        agent_id: u128,
        new_version: String,
        system_prompt: String,
        instructions: Option<String>,
    ) -> (r: Result<VersionedPrompt, String>)
        requires
            old(self).wf(),
        ensures
            final(self).wf(),
            old(self).history(agent_id).len() == 0 ==> (r matches Err(m) && m@ == "No prompts found for agent "@
                + uuid_text(agent_id) && forall|a: u128| final(self).history(a) == old(self).history(a)
                && final(self).change_log(a) == old(self).change_log(a)),
            old(self).history(agent_id).len() > 0 ==> {
                &&& final(self).change_log(agent_id).len() == old(self).change_log(agent_id).len() + 1
                &&& final(self).change_log(agent_id).drop_last() == old(self).change_log(agent_id)
                &&& exists|j: int|
                    is_latest(old(self).history(agent_id), j) && #[trigger] old(self).history(agent_id)[j].version@
                        == final(self).change_log(agent_id).last().from_version@ && diffs_view(
                        final(self).change_log(agent_id).last().changes@,
                    ) == prompt_diffs(
                        old(self).history(agent_id)[j].system_prompt@,
                        old(self).history(agent_id)[j].instructions,
                        system_prompt@,
                        instructions,
                    ) && (old(self).history(agent_id)[j].system_prompt@ != system_prompt@ ==> diffs_view(
                        final(self).change_log(agent_id).last().changes@,
                    )[0] == (
                        "system_prompt"@,
                        Some(old(self).history(agent_id)[j].system_prompt@),
                        Some(system_prompt@),
                    ))
                &&& final(self).change_log(agent_id).last().to_version@ == new_version@
                &&& forall|a: u128| a != agent_id ==> final(self).change_log(a) == old(self).change_log(a)
                &&& !valid_version(new_version@) ==> (r is Err && forall|a: u128| final(self).history(a) == old(self).history(a))
                &&& valid_version(new_version@) && has_version(old(self).history(agent_id), new_version@) ==> (r is Err
                    && forall|a: u128| final(self).history(a) == old(self).history(a))
                &&& valid_version(new_version@) && !has_version(old(self).history(agent_id), new_version@) ==> (
                r matches Ok(p) && p.agent_id == agent_id && p.version@ == new_version@ && p.system_prompt@
                    == system_prompt@ && opt_view(p.instructions) == opt_view(instructions) && final(self).history(
                    agent_id,
                ) == old(self).history(agent_id).push(p) && forall|a: u128|
                    a != agent_id ==> final(self).history(a) == old(self).history(a))
            },
    {
        let current = match self.get_latest_prompt(agent_id) {
            Ok(p) => p,
            Err(e) => {
                return Err(e);
            },
        };
        let now = now_micros();
        let new_prompt = VersionedPrompt {
            id: new_uuid(),
            agent_id,
            version: new_version.clone(),
            system_prompt: system_prompt.clone(),
            instructions: copy_opt_string(&instructions),
            created_at: now,
            updated_at: now,
        };
        let changes = calculate_changes(
            current.system_prompt.as_str(),
            &current.instructions,
            system_prompt.as_str(),
            &instructions,
        );
        proof {
            lemma_diffs_run_from_old_to_new(
                current.system_prompt@,
                current.instructions,
                system_prompt@,
                instructions,
            );
        }
        let record = PromptChange {
            from_version: current.version.clone(),
            to_version: new_version,
            changed_at: now_micros(),
            changes,
        };
        let ghost rec = record;
        let mut log = match self.changes.remove(&agent_id) {
            Some(l) => l,
            None => Vec::new(),
        };
        log.push(record);
        self.changes.insert(agent_id, log);
        proof {
            assert(self.change_log(agent_id) =~= old(self).change_log(agent_id).push(rec));
            assert forall|a: u128| a != agent_id implies self.change_log(a) == old(self).change_log(a) by {}
            assert forall|a: u128| #[trigger] self.history(a) == old(self).history(a) by {}
        }
        self.store_prompt(new_prompt)
    }

    /// Stores a new version whose text is that of version `target_version`:
    /// the same major and minor numbers, the next patch number.
    pub fn revert_to_version(&mut self, agent_id: u128, target_version: &str) -> (r: Result<VersionedPrompt, String>)
        requires
            old(self).wf(),
            forall|i: int|
                0 <= i < old(self).history(agent_id).len() && (#[trigger] old(self).history(agent_id)[i]).version@
                    == target_version@ ==> u32_value(split_char(target_version@, '.')[2]) < u32::MAX,
        ensures
            final(self).wf(),
            find_version(old(self).history(agent_id), target_version@) is None ==> (r matches Err(m) && m@
                == "Prompt version "@ + target_version@ + " not found for agent "@ + uuid_text(agent_id) && forall|
                a: u128,
            | final(self).history(a) == old(self).history(a) && final(self).change_log(a) == old(self).change_log(a)),
            find_version(old(self).history(agent_id), target_version@) is Some ==> final(self).change_log(
                agent_id,
            ).len() == old(self).change_log(agent_id).len() + 1,
            find_version(old(self).history(agent_id), target_version@) matches Some(t) ==> {
                let nv = reverted_version(target_version@);
                &&& valid_version(nv)
                &&& lex_order(version_key(nv), version_key(target_version@)) > 0
                &&& !has_version(old(self).history(agent_id), nv) ==> (r matches Ok(q) && q.agent_id == agent_id
                    && q.version@ == nv && q.system_prompt@ == t.system_prompt@ && opt_view(q.instructions)
                    == opt_view(t.instructions) && final(self).history(agent_id) == old(self).history(agent_id).push(q)
                    && forall|a: u128| a != agent_id ==> final(self).history(a) == old(self).history(a))
                &&& has_version(old(self).history(agent_id), nv) ==> (r is Err && forall|a: u128|
                    final(self).history(a) == old(self).history(a))
            },
    {
        let target = match self.get_prompt(agent_id, target_version) {
            Ok(p) => p,
            Err(e) => {
                return Err(e);
            },
        };
        proof {
            lemma_find_version(self.history(agent_id), target_version@);
        }
        proof {
            lemma_increment_is_newer(target_version@);
        }
        let new_version = match increment_version(target.version.as_str()) {
            Ok(v) => v,
            Err(e) => {
                return Err(e);
            },
        };
        self.update_prompt(agent_id, new_version, target.system_prompt, target.instructions)
    }
}

/// The version that reverting to version `v` creates: `v` with its patch
/// number increased.
pub open spec fn reverted_version(v: Seq<char>) -> Seq<char> {
    dotted(
        u32_value(split_char(v, '.')[0]),
        u32_value(split_char(v, '.')[1]),
        u32_value(split_char(v, '.')[2]) + 1,
    )
}

/// The prompt that `find_version` gives has the version looked for and is
/// one of the prompts.
pub proof fn lemma_find_version(h: Seq<VersionedPrompt>, v: Seq<char>)
    ensures
        find_version(h, v) is Some <==> has_version(h, v),
        find_version(h, v) matches Some(p) ==> p.version@ == v && exists|i: int| 0 <= i < h.len() && h[i] == p,
    decreases h.len(),
{
    if h.len() > 0 {
        lemma_find_version(h.drop_first(), v);
        if has_version(h, v) && h[0].version@ != v {
            let i = choose|i: int| 0 <= i < h.len() && (#[trigger] h[i]).version@ == v;
            assert(h.drop_first()[i - 1] == h[i]);
        }
        if let Some(p) = find_version(h.drop_first(), v) {
            if h[0].version@ != v {
                let i = choose|i: int| 0 <= i < h.drop_first().len() && h.drop_first()[i] == p;
                assert(h[i + 1] == p);
            }
        }
        if has_version(h.drop_first(), v) {
            let i = choose|i: int| 0 <= i < h.drop_first().len() && (#[trigger] h.drop_first()[i]).version@ == v;
            assert(h[i + 1].version@ == v);
        }
    }
}

/// A stored version can be read back: when `h` has no prompt with the
/// version of `p`, looking that version up after appending `p` gives `p`.
pub proof fn lemma_store_then_get(h: Seq<VersionedPrompt>, p: VersionedPrompt)
    requires
        !has_version(h, p.version@),
    ensures
        find_version(h.push(p), p.version@) == Some(p),
    decreases h.len(),
{
    if h.len() == 0 {
        assert(h.push(p)[0] == p);
    } else {
        assert(h[0].version@ != p.version@);
        assert(h.push(p).drop_first() =~= h.drop_first().push(p));
        assert(!has_version(h.drop_first(), p.version@)) by {
            if has_version(h.drop_first(), p.version@) {
                let i = choose|i: int| 0 <= i < h.drop_first().len() && (#[trigger] h.drop_first()[i]).version@ == p.version@;
                assert(h[i + 1].version@ == p.version@);
            }
        }
        lemma_store_then_get(h.drop_first(), p);
    }
}

/// The latest prompt is unique: two latest positions are the same.
pub proof fn lemma_latest_unique(h: Seq<VersionedPrompt>, j1: int, j2: int)
    requires
        is_latest(h, j1),
        is_latest(h, j2),
    ensures
        j1 == j2,
{
    lemma_lex_order(version_key(h[j1].version@), version_key(h[j2].version@), version_key(h[j1].version@));
    if j1 < j2 {
        assert(lex_order(version_key(h[j2].version@), version_key(h[j1].version@)) < 0);
        assert(lex_order(version_key(h[j1].version@), version_key(h[j2].version@)) <= 0);
    } else if j2 < j1 {
        assert(lex_order(version_key(h[j1].version@), version_key(h[j2].version@)) < 0);
        assert(lex_order(version_key(h[j2].version@), version_key(h[j1].version@)) <= 0);
    }
}

} // verus!
