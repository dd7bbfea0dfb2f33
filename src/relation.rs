//! Relations between entities, read from the Rust type of the field that
//! holds the related entity.

use vstd::prelude::*;
use crate::strings::{owned, push_char, starts_with};

verus! {

/// A relation: the related entity's type, whether the field holds several
/// of them, the joined columns, and whether the relation must be present.
#[derive(Debug, Clone)]
pub struct RelationInfo {
    pub ty: String,
    pub is_vec: bool,
    pub self_col: String,
    pub ref_col: String,
    pub is_not_null: bool,
}

/// `s` without its spaces.
pub open spec fn without_spaces(s: Seq<char>) -> Seq<char>
    decreases s.len(),
{
    if s.len() == 0 {
        Seq::empty()
    } else if s.last() == ' ' {
        without_spaces(s.drop_last())
    } else {
        without_spaces(s.drop_last()).push(s.last())
    }
}

/// `t` begins with `p`.
pub open spec fn has_prefix(t: Seq<char>, p: Seq<char>) -> bool {
    p.len() <= t.len() && t.subrange(0, p.len() as int) == p
}

/// The type of a relation field can be read: an `Option<..>` or `Vec<..>`
/// has room for its closing bracket.
pub open spec fn relation_type_readable(ty: Seq<char>) -> bool {
    let t = without_spaces(ty);
    &&& has_prefix(t, "Option<"@) ==> t.len() >= 8
    &&& has_prefix(t, "Vec<"@) ==> t.len() >= 5
}

fn strip_spaces(s: &str) -> (r: String)
    ensures
        r@ == without_spaces(s@),
{
    let n = s.unicode_len();
    let mut out = String::new();
    let mut i: usize = 0;
    while i < n
        invariant
            n == s@.len(),
            i <= n,
            out@ == without_spaces(s@.subrange(0, i as int)),
        decreases n - i,
    {
        let c = s.get_char(i);
        assert(s@.subrange(0, i + 1).drop_last() =~= s@.subrange(0, i as int));
        if c != ' ' {
            push_char(&mut out, c);
        }
        i = i + 1;
    }
    assert(s@.subrange(0, n as int) =~= s@);
    out
}

/// Reads a relation from the type of its field: `Option<T>` is an optional
/// relation to `T`, `Vec<T>` a required relation to several `T`, and any
/// other type `T` a required relation to one `T`. Spaces in the type are
/// ignored.
pub fn parse_relation(ty: &String, self_col: String, ref_col: String) -> (r: RelationInfo)
    requires
        relation_type_readable(ty@),
    ensures
        r.self_col == self_col,
        r.ref_col == ref_col,
        ({
            let t = without_spaces(ty@);
            if has_prefix(t, "Option<"@) {
                r.ty@ == t.subrange(7, t.len() - 1) && !r.is_vec && !r.is_not_null
            } else if has_prefix(t, "Vec<"@) {
                r.ty@ == t.subrange(4, t.len() - 1) && r.is_vec && r.is_not_null
            } else {
                r.ty@ == t && !r.is_vec && r.is_not_null
            }
        }),
{
    proof {
        reveal_strlit("Option<");
        reveal_strlit("Vec<");
    }
    let t = strip_spaces(ty.as_str());
    let n = t.as_str().unicode_len();
    if starts_with(t.as_str(), "Option<") {
        let inner = owned(t.as_str().substring_char(7, n - 1));
        return RelationInfo { ty: inner, is_vec: false, self_col, ref_col, is_not_null: false };
    }
    if starts_with(t.as_str(), "Vec<") {
        let inner = owned(t.as_str().substring_char(4, n - 1));
        return RelationInfo { ty: inner, is_vec: true, self_col, ref_col, is_not_null: true };
    }
    RelationInfo { ty: t, is_vec: false, self_col, ref_col, is_not_null: true }
}

} // verus!
