//! Construction of the request URLs of the two upstream hosts.

use vstd::prelude::*;

use crate::digits::dec_rep;
use crate::digits::int_dec_rep;
use crate::digits::u64_dec_str;
use crate::digits::i64_dec_str;
use crate::model::Category;

verus! {

/// The URL that lists all editions of an event:
/// `{host}/event/{handle}`.
pub open spec fn editions_url_spec(host: Seq<char>, handle: Seq<char>) -> Seq<char> {
    host + "/event/"@ + handle
}

/// The URL of one edition's metadata:
/// `{host}/event/{handle}/{edition}`.
pub open spec fn edition_url_spec(host: Seq<char>, handle: Seq<char>, edition: nat) -> Seq<char> {
    host + "/event/"@ + handle + "/"@ + dec_rep(edition)
}

/// The URL that downloads one map's content:
/// `{content_host}/maps/download/{mx_id}`.
pub open spec fn map_download_url_spec(content_host: Seq<char>, mx_id: int) -> Seq<char> {
    content_host + "/maps/download/"@ + int_dec_rep(mx_id)
}

/// Builds the edition-list URL of an event.
pub fn editions_url(host: &str, handle: &str) -> (r: String)
    ensures
        r@ == editions_url_spec(host@, handle@),
{
    let mut s = host.to_owned();
    s.append("/event/");
    s.append(handle);
    proof {
        assert(s@ =~= editions_url_spec(host@, handle@));
    }
    s
}

/// Builds the metadata URL of one edition.
pub fn edition_url(host: &str, handle: &str, edition: u32) -> (r: String)
    ensures
        r@ == edition_url_spec(host@, handle@, edition as nat),
{
    let mut s = host.to_owned();
    s.append("/event/");
    s.append(handle);
    s.append("/");
    let digits = u64_dec_str(edition as u64);
    s.append(digits.as_str());
    proof {
        assert(s@ =~= edition_url_spec(host@, handle@, edition as nat));
    }
    s
}

/// Builds the download URL of one map.
pub fn map_download_url(content_host: &str, mx_id: i64) -> (r: String)
    ensures
        r@ == map_download_url_spec(content_host@, mx_id as int),
{
    let mut s = content_host.to_owned();
    s.append("/maps/download/");
    let digits = i64_dec_str(mx_id);
    s.append(digits.as_str());
    proof {
        assert(s@ =~= map_download_url_spec(content_host@, mx_id as int));
    }
    s
}

/// Builds the download URL of every map of a category, in the category's
/// own order: one concurrent download is issued per entry.
pub fn category_map_urls(content_host: &str, cat: &Category) -> (r: Vec<String>)
    ensures
        r@.len() == cat.maps@.len(),
        forall|i: int|
            0 <= i < r@.len() ==> #[trigger] r@[i]@ == map_download_url_spec(
                content_host@,
                cat.maps@[i].mx_id as int,
            ),
{
    let mut urls: Vec<String> = Vec::new();
    let mut k: usize = 0;
    while k < cat.maps.len()
        invariant
            0 <= k <= cat.maps@.len(),
            urls@.len() == k,
            forall|i: int|
                0 <= i < k ==> #[trigger] urls@[i]@ == map_download_url_spec(
                    content_host@,
                    cat.maps@[i].mx_id as int,
                ),
        decreases cat.maps@.len() - k,
    {
        urls.push(map_download_url(content_host, cat.maps[k].mx_id));
        k = k + 1;
    }
    urls
}

} // verus!
