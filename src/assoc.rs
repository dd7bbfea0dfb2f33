//! Lists of named fields read as maps: a later field hides an earlier one of
//! the same name.

use vstd::prelude::*;
use crate::strings::eq_str;

verus! {

/// The map that a list of named fields denotes.
pub open spec fn assoc_map<V>(s: Seq<(String, V)>) -> Map<Seq<char>, V>
    decreases s.len(),
{
    if s.len() == 0 {
        Map::empty()
    } else {
        assoc_map(s.drop_last()).insert(s.last().0@, s.last().1)
    }
}

/// Fields after position `m` that do not carry name `k` leave its entry as
/// the first `m` fields make it.
pub proof fn lemma_assoc_suffix<V>(s: Seq<(String, V)>, m: int, k: Seq<char>)
    requires
        0 <= m <= s.len(),
        forall|j: int| m <= j < s.len() ==> (#[trigger] s[j]).0@ != k,
    ensures
        assoc_map(s).contains_key(k) == assoc_map(s.subrange(0, m)).contains_key(k),
        assoc_map(s)[k] == assoc_map(s.subrange(0, m))[k],
    decreases s.len(),
{
    if m == s.len() {
        assert(s.subrange(0, m) =~= s);
    } else {
        let t = s.drop_last();
        assert(forall|j: int| m <= j < t.len() ==> t[j] == s[j]);
        lemma_assoc_suffix(t, m, k);
        assert(t.subrange(0, m) =~= s.subrange(0, m));
    }
}

/// The position of the last field named `k`, if there is one.
pub fn assoc_find<V>(s: &Vec<(String, V)>, k: &str) -> (r: Option<usize>)
    ensures
        r is Some <==> assoc_map(s@).contains_key(k@),
        r is Some ==> r->0 < s@.len() && s@[r->0 as int].0@ == k@
            && assoc_map(s@)[k@] == s@[r->0 as int].1,
{
    let mut i: usize = s.len();
    while i > 0
        invariant
            i <= s@.len(),
            forall|j: int| i <= j < s@.len() ==> (#[trigger] s@[j]).0@ != k@,
        decreases i,
    {
        if eq_str(s[i - 1].0.as_str(), k) {
            proof {
                lemma_assoc_suffix(s@, i as int, k@);
                assert(s@.subrange(0, i as int).drop_last() =~= s@.subrange(0, i - 1));
            }
            return Some(i - 1);
        }
        i = i - 1;
    }
    proof {
        lemma_assoc_suffix(s@, 0, k@);
        assert(s@.subrange(0, 0) =~= Seq::<(String, V)>::empty());
    }
    None
}

} // verus!
