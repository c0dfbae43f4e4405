//! Construction of the output paths that downloaded maps are written to.
//!
//! Every map lands at `{out}/{handle}/{edition}/{category}/{uid}.Map.Gbx`.
//! The output root is joined like a filesystem path: a root that already
//! ends in a separator gains no second one, so a root of "./" yields paths
//! under `./{handle}/...`.

use vstd::prelude::*;

use crate::digits::dec_rep;
use crate::digits::u64_dec_str;
use crate::strutil::join_path;
use crate::strutil::join_segment;
use crate::strutil::path_join;

verus! {

/// The filename of one map: its unique identifier with the map extension.
pub open spec fn map_file_name_spec(uid: Seq<char>) -> Seq<char> {
    uid + ".Map.Gbx"@
}

/// The directory of one category, relative to the output root:
/// `{handle}/{edition}/{category}`.
pub open spec fn category_dir_rel(handle: Seq<char>, edition: nat, category: Seq<char>) -> Seq<
    char,
> {
    handle + seq!['/'] + dec_rep(edition) + seq!['/'] + category
}

/// The path of one category's directory:
/// `{out}` joined with `{handle}/{edition}/{category}`.
pub open spec fn category_dir_path_spec(
    out: Seq<char>,
    handle: Seq<char>,
    edition: nat,
    category: Seq<char>,
) -> Seq<char> {
    path_join(out, category_dir_rel(handle, edition, category))
}

/// The path of one map's output file:
/// `{out}` joined with `{handle}/{edition}/{category}/{uid}.Map.Gbx`.
pub open spec fn map_file_path_spec(
    out: Seq<char>,
    handle: Seq<char>,
    edition: nat,
    category: Seq<char>,
    uid: Seq<char>,
) -> Seq<char> {
    path_join(out, category_dir_rel(handle, edition, category) + seq!['/'] + map_file_name_spec(uid))
}

/// Builds the filename of one map.
pub fn map_file_name(uid: &str) -> (r: String)
    ensures
        r@ == map_file_name_spec(uid@),
{
    let mut s = uid.to_owned();
    s.append(".Map.Gbx");
    s
}

/// Builds the directory path that one category's maps are written into.
pub fn category_dir_path(out: &str, handle: &str, edition: u32, category: &str) -> (r: String)
    ensures
        r@ == category_dir_path_spec(out@, handle@, edition as nat, category@),
{
    let mut rel = handle.to_owned();
    let digits = u64_dec_str(edition as u64);
    rel = join_segment(rel, digits.as_str());
    rel = join_segment(rel, category);
    proof {
        assert(rel@ =~= category_dir_rel(handle@, edition as nat, category@));
    }
    join_path(out, rel.as_str())
}

/// Builds the full output path of one map file.
pub fn map_file_path(out: &str, handle: &str, edition: u32, category: &str, uid: &str) -> (r:
    String)
    ensures
        r@ == map_file_path_spec(out@, handle@, edition as nat, category@, uid@),
{
    let mut rel = handle.to_owned();
    let digits = u64_dec_str(edition as u64);
    rel = join_segment(rel, digits.as_str());
    rel = join_segment(rel, category);
    let name = map_file_name(uid);
    rel = join_segment(rel, name.as_str());
    proof {
        assert(rel@ =~= category_dir_rel(handle@, edition as nat, category@) + seq!['/']
            + map_file_name_spec(uid@));
    }
    join_path(out, rel.as_str())
}

/// A map's file path is the path of its category's directory, a separator,
/// and the map's filename: writing the file into that directory and
/// computing the file path directly agree.
pub proof fn lemma_map_file_in_category_dir(
    out: Seq<char>,
    handle: Seq<char>,
    edition: nat,
    category: Seq<char>,
    uid: Seq<char>,
)
    ensures
        map_file_path_spec(out, handle, edition, category, uid) == category_dir_path_spec(
            out,
            handle,
            edition,
            category,
        ) + seq!['/'] + map_file_name_spec(uid),
{
    assert(map_file_path_spec(out, handle, edition, category, uid) =~= category_dir_path_spec(
        out,
        handle,
        edition,
        category,
    ) + seq!['/'] + map_file_name_spec(uid));
}

/// Changing only the output root changes only the path's leading segment:
/// under any two roots (neither empty nor ending in a separator) the same
/// map's path is the root, a separator, and one suffix that does not depend
/// on the root at all.
pub proof fn lemma_out_changes_only_prefix(
    out1: Seq<char>,
    out2: Seq<char>,
    handle: Seq<char>,
    edition: nat,
    category: Seq<char>,
    uid: Seq<char>,
)
    requires
        out1.len() > 0,
        out1.last() != '/',
        out2.len() > 0,
        out2.last() != '/',
    ensures
        map_file_path_spec(out1, handle, edition, category, uid) == out1 + seq!['/']
            + category_dir_rel(handle, edition, category) + seq!['/'] + map_file_name_spec(uid),
        map_file_path_spec(out2, handle, edition, category, uid) == out2 + seq!['/']
            + category_dir_rel(handle, edition, category) + seq!['/'] + map_file_name_spec(uid),
{
    assert(map_file_path_spec(out1, handle, edition, category, uid) =~= out1 + seq!['/']
        + category_dir_rel(handle, edition, category) + seq!['/'] + map_file_name_spec(uid));
    assert(map_file_path_spec(out2, handle, edition, category, uid) =~= out2 + seq!['/']
        + category_dir_rel(handle, edition, category) + seq!['/'] + map_file_name_spec(uid));
}

} // verus!
