//! Fully qualified metric keys: the adapter name joined to a field name with
//! a dot.

use vstd::prelude::*;
use vstd::string::StringExecFns;

verus! {

/// Joins an adapter name and a field name into one key.
pub fn prefixed(name: &str, field: &str) -> (r: String)
    ensures
        r@ == name@ + "."@ + field@,
{
    let mut r = name.to_owned();
    r.append(".");
    r.append(field);
    r
}

/// Dropping a shared prefix preserves distinctness: if two keys with the same
/// prefix are equal, their suffixes already were.
pub proof fn lemma_prefix_cancel(p: Seq<char>, a: Seq<char>, b: Seq<char>)
    requires
        p + a == p + b,
    ensures
        a == b,
{
    assert((p + a).len() == p.len() + a.len());
    assert((p + b).len() == p.len() + b.len());
    assert forall|i: int| 0 <= i < a.len() implies a[i] == b[i] by {
        assert((p + a)[p.len() + i] == a[i]);
        assert((p + b)[p.len() + i] == b[i]);
    }
    assert(a =~= b);
}

} // verus!
