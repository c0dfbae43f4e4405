//! Small string helpers shared by the URL and path builders.

use vstd::prelude::*;

verus! {

/// Joins a relative path onto a base the way a filesystem path join does:
/// an empty base disappears, a base that already ends in a separator gains
/// no second one, and otherwise a separator is inserted.
pub open spec fn path_join(base: Seq<char>, rel: Seq<char>) -> Seq<char> {
    if base.len() == 0 {
        rel
    } else if base.last() == '/' {
        base + rel
    } else {
        base + seq!['/'] + rel
    }
}

/// Appends a separator and one further segment to a path under
/// construction.
pub fn join_segment(base: String, segment: &str) -> (r: String)
    ensures
        r@ == base@ + seq!['/'] + segment@,
{
    let ghost b: Seq<char> = base@;
    let mut s = base;
    s.append("/");
    s.append(segment);
    proof {
        reveal_strlit("/");
        assert(s@ =~= b + seq!['/'] + segment@);
    }
    s
}

/// Joins a relative path onto a base path.
pub fn join_path(base: &str, rel: &str) -> (r: String)
    ensures
        r@ == path_join(base@, rel@),
{
    let n = base.unicode_len();
    if n == 0 {
        rel.to_owned()
    } else if base.get_char(n - 1) == '/' {
        let mut s = base.to_owned();
        s.append(rel);
        s
    } else {
        let s = join_segment(base.to_owned(), rel);
        s
    }
}

} // verus!
