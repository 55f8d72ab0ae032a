//! Named text values kept as an association list with distinct names, in
//! the order in which the names were first set.

use vstd::prelude::*;

verus! {

/// Whether no name occurs twice in the list.
pub open spec fn names_distinct(s: Seq<(String, String)>) -> bool {
    forall|i: int, j: int| 0 <= i < s.len() && 0 <= j < s.len() && i != j ==> (#[trigger] s[i]).0@ != (#[trigger] s[j]).0@
}

/// The list as a map from name to value.
pub open spec fn property_map(s: Seq<(String, String)>) -> Map<Seq<char>, Seq<char>>
    decreases s.len(),
{
    if s.len() == 0 {
        Map::empty()
    } else {
        property_map(s.drop_last()).insert(s.last().0@, s.last().1@)
    }
}

proof fn lemma_property_names(s: Seq<(String, String)>, k: Seq<char>)
    ensures
        property_map(s).contains_key(k) <==> exists|j: int| 0 <= j < s.len() && (#[trigger] s[j]).0@ == k,
    decreases s.len(),
{
    if s.len() > 0 {
        lemma_property_names(s.drop_last(), k);
        if property_map(s.drop_last()).contains_key(k) {
            let j = choose|j: int| 0 <= j < s.drop_last().len() && (#[trigger] s.drop_last()[j]).0@ == k;
            assert(s[j] == s.drop_last()[j]);
        }
        if exists|j: int| 0 <= j < s.len() && (#[trigger] s[j]).0@ == k {
            let j = choose|j: int| 0 <= j < s.len() && (#[trigger] s[j]).0@ == k;
            if j < s.len() - 1 {
                assert(s.drop_last()[j] == s[j]);
            }
        }
    }
}

proof fn lemma_property_replace(s: Seq<(String, String)>, j: int, e: (String, String))
    requires
        names_distinct(s),
        0 <= j < s.len(),
        e.0@ == s[j].0@,
    ensures
        names_distinct(s.update(j, e)),
        property_map(s.update(j, e)) == property_map(s).insert(e.0@, e.1@),
    decreases s.len(),
{
    let u = s.update(j, e);
    assert forall|a: int, b: int| 0 <= a < u.len() && 0 <= b < u.len() && a != b implies (#[trigger] u[a]).0@ != (#[trigger] u[b]).0@ by {
        assert(s[a].0@ != s[b].0@);
    }
    if j == s.len() - 1 {
        assert(u.drop_last() =~= s.drop_last());
        assert(property_map(u) =~= property_map(s).insert(e.0@, e.1@));
    } else {
        assert(u.drop_last() =~= s.drop_last().update(j, e));
        assert(s.drop_last()[j] == s[j]);
        lemma_property_replace(s.drop_last(), j, e);
        assert(s.last().0@ != e.0@);
        assert(property_map(u) =~= property_map(s).insert(e.0@, e.1@));
    }
}

/// Sets the value of `name`, replacing an earlier value or appending the
/// name when it is new.
pub fn set_property(list: &mut Vec<(String, String)>, name: String, value: String)
    requires
        names_distinct(old(list)@),
    ensures
        names_distinct(final(list)@),
        property_map(final(list)@) == property_map(old(list)@).insert(name@, value@),
{
    let mut j: usize = 0;
    while j < list.len()
        invariant
            list@ == old(list)@,
            names_distinct(old(list)@),
            j <= list@.len(),
            forall|t: int| 0 <= t < j ==> (#[trigger] list@[t]).0@ != name@,
        decreases list@.len() - j,
    {
        if list[j].0.eq(&name) {
            let ghost old_list = list@;
            let e = (name, value);
            proof {
                lemma_property_replace(old_list, j as int, e);
            }
            list.set(j, e);
            return;
        }
        j = j + 1;
    }
    proof {
        lemma_property_names(list@, name@);
    }
    let ghost old_list = list@;
    list.push((name, value));
    assert(list@.drop_last() =~= old_list);
    assert forall|a: int, b: int| 0 <= a < list@.len() && 0 <= b < list@.len() && a != b implies (#[trigger] list@[a]).0@ != (#[trigger] list@[b]).0@ by {
        if a < old_list.len() && b < old_list.len() {
            assert(old_list[a] == list@[a] && old_list[b] == list@[b]);
        } else if a < old_list.len() {
            assert(old_list[a] == list@[a]);
        } else if b < old_list.len() {
            assert(old_list[b] == list@[b]);
        }
    }
}

} // verus!
