//! Per-key totals kept as an association list with distinct keys, in the
//! order in which the keys were first seen.

use vstd::prelude::*;

verus! {

/// Whether no key occurs twice in the list.
pub open spec fn keys_distinct(s: Seq<(String, u32)>) -> bool {
    forall|i: int, j: int| 0 <= i < s.len() && 0 <= j < s.len() && i != j ==> (#[trigger] s[i]).0@ != (#[trigger] s[j]).0@
}

/// The totals of the list as a map from key text to amount.
pub open spec fn tally_map(s: Seq<(String, u32)>) -> Map<Seq<char>, nat>
    decreases s.len(),
{
    if s.len() == 0 {
        Map::empty()
    } else {
        tally_map(s.drop_last()).insert(s.last().0@, s.last().1 as nat)
    }
}

/// The amount recorded for `k`, zero when there is none.
pub open spec fn amount_of(m: Map<Seq<char>, nat>, k: Seq<char>) -> nat {
    if m.contains_key(k) { m[k] } else { 0 }
}

/// The keys of the map are exactly the keys of the list.
pub proof fn lemma_tally_keys(s: Seq<(String, u32)>, k: Seq<char>)
    ensures
        tally_map(s).contains_key(k) <==> exists|j: int| 0 <= j < s.len() && (#[trigger] s[j]).0@ == k,
    decreases s.len(),
{
    if s.len() > 0 {
        lemma_tally_keys(s.drop_last(), k);
        if tally_map(s.drop_last()).contains_key(k) {
            let j = choose|j: int| 0 <= j < s.drop_last().len() && (#[trigger] s.drop_last()[j]).0@ == k;
            assert(s[j] == s.drop_last()[j]);
        }
        if exists|j: int| 0 <= j < s.len() && (#[trigger] s[j]).0@ == k {
            let j = choose|j: int| 0 <= j < s.len() && (#[trigger] s[j]).0@ == k;
            if j < s.len() - 1 {
                assert(s.drop_last()[j] == s[j]);
            }
        }
    }
}

/// In a list with distinct keys, the map gives each key its entry's amount.
pub proof fn lemma_tally_lookup(s: Seq<(String, u32)>, j: int)
    requires
        keys_distinct(s),
        0 <= j < s.len(),
    ensures
        tally_map(s).contains_key(s[j].0@),
        tally_map(s)[s[j].0@] == s[j].1 as nat,
    decreases s.len(),
{
    if j < s.len() - 1 {
        assert(s.drop_last()[j] == s[j]);
        lemma_tally_lookup(s.drop_last(), j);
        assert(s[j].0@ != s[s.len() - 1].0@);
    }
}

/// Replacing the amount of an existing key updates that key only.
pub proof fn lemma_tally_update(s: Seq<(String, u32)>, j: int, e: (String, u32))
    requires
        keys_distinct(s),
        0 <= j < s.len(),
        e.0@ == s[j].0@,
    ensures
        keys_distinct(s.update(j, e)),
        tally_map(s.update(j, e)) == tally_map(s).insert(e.0@, e.1 as nat),
    decreases s.len(),
{
    let u = s.update(j, e);
    assert forall|a: int, b: int| 0 <= a < u.len() && 0 <= b < u.len() && a != b implies (#[trigger] u[a]).0@ != (#[trigger] u[b]).0@ by {
        assert(s[a].0@ != s[b].0@);
    }
    if j == s.len() - 1 {
        assert(u.drop_last() =~= s.drop_last());
        assert(tally_map(u) =~= tally_map(s).insert(e.0@, e.1 as nat));
    } else {
        assert(u.drop_last() =~= s.drop_last().update(j, e));
        assert(s.drop_last()[j] == s[j]);
        lemma_tally_update(s.drop_last(), j, e);
        assert(s.last().0@ != e.0@);
        assert(tally_map(u) =~= tally_map(s).insert(e.0@, e.1 as nat));
    }
}

/// Adds `amount` to the total of `key`, appending the key when it is new.
pub fn add_to_tally(list: &mut Vec<(String, u32)>, key: &str, amount: u32)
    requires
        keys_distinct(old(list)@),
        amount_of(tally_map(old(list)@), key@) + amount <= u32::MAX,
    ensures
        keys_distinct(final(list)@),
        tally_map(final(list)@) == tally_map(old(list)@).insert(key@, (amount_of(tally_map(old(list)@), key@) + amount) as nat),
{
    let key_s = String::from_str(key);
    let mut j: usize = 0;
    while j < list.len()
        invariant
            list@ == old(list)@,
            keys_distinct(old(list)@),
            amount_of(tally_map(old(list)@), key@) + amount <= u32::MAX,
            key_s@ == key@,
            j <= list@.len(),
            forall|t: int| 0 <= t < j ==> (#[trigger] list@[t]).0@ != key@,
        decreases list@.len() - j,
    {
        if list[j].0.eq(&key_s) {
            proof {
                lemma_tally_lookup(list@, j as int);
            }
            let v = list[j].1;
            assert(list@[j as int].0@ == key@);
            assert(amount_of(tally_map(old(list)@), key@) == v);
            let ghost old_list = list@;
            let e = (String::from_str(key), v + amount);
            proof {
                lemma_tally_update(old_list, j as int, e);
            }
            list.set(j, e);
            return;
        }
        j = j + 1;
    }
    proof {
        lemma_tally_keys(list@, key@);
    }
    let ghost old_list = list@;
    list.push((key_s, amount));
    assert(list@.drop_last() =~= old_list);
    assert forall|a: int, b: int| 0 <= a < list@.len() && 0 <= b < list@.len() && a != b implies (#[trigger] list@[a]).0@ != (#[trigger] list@[b]).0@ by {
        if a < old_list.len() && b < old_list.len() {
            assert(old_list[a] == list@[a] && old_list[b] == list@[b]);
        } else if a < old_list.len() {
            assert(old_list[a] == list@[a]);
        } else if b < old_list.len() {
            assert(old_list[b] == list@[b]);
        }
    }
}

} // verus!
