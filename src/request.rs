use vstd::prelude::*;
use vstd::string::*;

use crate::media::string_views;
use crate::naming::{decimal, decimal_string};

verus! {

/// The words joined with single spaces between them.
pub open spec fn joined(words: Seq<Seq<char>>) -> Seq<char>
    decreases words.len(),
{
    if words.len() == 0 {
        Seq::empty()
    } else if words.len() == 1 {
        words[0]
    } else {
        joined(words.drop_last()) + seq![' '] + words.last()
    }
}

/// Joins the query words with single spaces.
pub fn join_query(words: &Vec<String>) -> (r: String)
    ensures
        r@ == joined(string_views(words@)),
{
    let mut out = String::new();
    let mut i: usize = 0;
    proof {
        reveal_strlit(" ");
        assert(string_views(words@.take(0)) =~= Seq::<Seq<char>>::empty());
    }
    while i < words.len()
        invariant
            i <= words.len(),
            out@ == joined(string_views(words@.take(i as int))),
            " "@ == seq![' '],
        decreases words.len() - i,
    {
        let ghost before = string_views(words@.take(i as int));
        let ghost after = string_views(words@.take(i + 1));
        assert(after.drop_last() =~= before);
        assert(after.last() == words@[i as int]@);
        if i > 0 {
            out.append(" ");
        } else {
            assert(after =~= seq![words@[0]@]);
        }
        out.append(words[i].as_str());
        assert(out@ =~= joined(after));
        i = i + 1;
    }
    assert(words@.take(i as int) =~= words@);
    out
}

/// The search request for `query`, authorised by `key`, asking for `limit`
/// results. The query is put in as it is.
pub open spec fn search_url_of(query: Seq<char>, key: Seq<char>, limit: nat) -> Seq<char> {
    "https://g.tenor.com/v2/search?q="@ + query + "&key="@ + key + "&limit="@ + decimal(limit)
}

/// Builds the search request link.
pub fn search_url(query: &str, key: &str, limit: u8) -> (r: String)
    ensures
        r@ == search_url_of(query@, key@, limit as nat),
{
    let mut r = String::from_str("https://g.tenor.com/v2/search?q=");
    r.append(query);
    r.append("&key=");
    r.append(key);
    r.append("&limit=");
    let n = decimal_string(limit as u32);
    r.append(n.as_str());
    r
}

} // verus!
