use vstd::prelude::*;

use crate::text::str_eq;

verus! {

/// The map that a list of key-value entries stands for: a later entry for a
/// key takes the place of an earlier one.
pub open spec fn entries_map(s: Seq<(String, String)>) -> Map<Seq<char>, Seq<char>>
    decreases s.len(),
{
    if s.len() == 0 {
        Map::empty()
    } else {
        entries_map(s.drop_last()).insert(s.last().0@, s.last().1@)
    }
}

/// A key is in the map exactly when some entry holds it.
pub proof fn lemma_entries_dom(s: Seq<(String, String)>, k: Seq<char>)
    ensures
        entries_map(s).dom().contains(k) <==> exists|i: int| 0 <= i < s.len() && #[trigger] s[i].0@ == k,
    decreases s.len(),
{
    if s.len() > 0 {
        let init = s.drop_last();
        lemma_entries_dom(init, k);
        if exists|i: int| 0 <= i < init.len() && #[trigger] init[i].0@ == k {
            let i = choose|i: int| 0 <= i < init.len() && #[trigger] init[i].0@ == k;
            assert(s[i].0@ == k);
        }
        if exists|i: int| 0 <= i < s.len() && #[trigger] s[i].0@ == k {
            let i = choose|i: int| 0 <= i < s.len() && #[trigger] s[i].0@ == k;
            if i < s.len() - 1 {
                assert(init[i].0@ == k);
            }
        }
    }
}

/// The value of a key is that of the last entry that holds it.
pub proof fn lemma_entries_last(s: Seq<(String, String)>, j: int)
    requires
        0 <= j < s.len(),
        forall|m: int| j < m < s.len() ==> #[trigger] s[m].0@ != s[j].0@,
    ensures
        entries_map(s).dom().contains(s[j].0@),
        entries_map(s)[s[j].0@] == s[j].1@,
    decreases s.len(),
{
    if j < s.len() - 1 {
        let init = s.drop_last();
        assert forall|m: int| j < m < init.len() implies #[trigger] init[m].0@ != init[j].0@ by {
            assert(init[m] == s[m]);
        }
        lemma_entries_last(init, j);
        assert(s.last() == s[s.len() - 1]);
    }
}

/// Where the value of `key` is held in `entries`: the last entry that holds it.
pub fn find_entry(entries: &Vec<(String, String)>, key: &str) -> (r: Option<usize>)
    ensures
        r is None <==> !entries_map(entries@).dom().contains(key@),
        r matches Some(j) ==> j < entries@.len() && entries@[j as int].0@ == key@
            && entries_map(entries@)[key@] == entries@[j as int].1@,
{
    let mut i: usize = entries.len();
    while i > 0
        invariant
            i <= entries@.len(),
            forall|m: int| i <= m < entries@.len() ==> #[trigger] entries@[m].0@ != key@,
        decreases i,
    {
        if str_eq(entries[i - 1].0.as_str(), key) {
            proof {
                lemma_entries_last(entries@, i - 1);
            }
            return Some(i - 1);
        }
        i = i - 1;
    }
    proof {
        lemma_entries_dom(entries@, key@);
    }
    None
}

/// Whether every key of `a` is in `b` with the same value.
fn entries_within(a: &Vec<(String, String)>, b: &Vec<(String, String)>) -> (r: bool)
    ensures
        r == (forall|k: Seq<char>| #[trigger] entries_map(a@).dom().contains(k) ==> entries_map(
            b@,
        ).dom().contains(k) && entries_map(b@)[k] == entries_map(a@)[k]),
{
    let mut i: usize = 0;
    while i < a.len()
        invariant
            i <= a@.len(),
            forall|m: int|
                0 <= m < i ==> entries_map(b@).dom().contains(#[trigger] a@[m].0@) && entries_map(
                    b@,
                )[a@[m].0@] == entries_map(a@)[a@[m].0@],
        decreases a@.len() - i,
    {
        let key = a[i].0.as_str();
        let ja = find_entry(a, key);
        let jb = find_entry(b, key);
        proof {
            lemma_entries_dom(a@, key@);
            assert(a@[i as int].0@ == key@);
        }
        match (ja, jb) {
            (Some(x), Some(y)) => {
                if !str_eq(a[x].1.as_str(), b[y].1.as_str()) {
                    return false;
                }
            },
            _ => {
                return false;
            },
        }
        i = i + 1;
    }
    assert forall|k: Seq<char>| #[trigger] entries_map(a@).dom().contains(k) implies entries_map(
        b@,
    ).dom().contains(k) && entries_map(b@)[k] == entries_map(a@)[k] by {
        lemma_entries_dom(a@, k);
        let m = choose|m: int| 0 <= m < a@.len() && #[trigger] a@[m].0@ == k;
    }
    true
}

/// Whether two entry lists stand for the same map.
pub fn entries_eq(a: &Vec<(String, String)>, b: &Vec<(String, String)>) -> (r: bool)
    ensures
        r == (entries_map(a@) == entries_map(b@)),
{
    let ab = entries_within(a, b);
    let ba = entries_within(b, a);
    if ab && ba {
        assert(entries_map(a@) =~= entries_map(b@));
        true
    } else {
        false
    }
}

} // verus!
