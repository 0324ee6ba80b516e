//! Where a request goes: the URL of a call.

use crate::errors::Error;
use crate::params::{pairs_view, Params};
use crate::trusted::{parse_with_params, url_with_params};
use vstd::prelude::*;
use vstd::string::*;
use vstd::utf8::encode_utf8;

verus! {

/// The most bytes that the address with the path, and the parameters, may
/// each have for a URL to be built from them. It keeps every URL far
/// below 4 GiB, beyond which `url` cannot hold one.
pub const MAX_URL_INPUT: usize = 0x0100_0000;

/// The number of bytes of `s` in UTF-8.
pub open spec fn byte_len(s: Seq<char>) -> nat {
    encode_utf8(s).len()
}

/// The bytes of all names and values of `pairs`, and two more for each
/// pair.
pub open spec fn query_size(pairs: Seq<(Seq<char>, Seq<char>)>) -> nat
    decreases pairs.len(),
{
    if pairs.len() == 0 {
        0
    } else {
        query_size(pairs.drop_last()) + byte_len(pairs.last().0) + byte_len(pairs.last().1) + 2
    }
}

/// Whether `input` and `pairs` are short enough for a URL.
pub open spec fn url_fits(input: Seq<char>, pairs: Seq<(Seq<char>, Seq<char>)>) -> bool {
    byte_len(input) <= MAX_URL_INPUT && query_size(pairs) <= MAX_URL_INPUT
}

/// The URL of a call: `path` appended to `address` as it stands, parsed,
/// and extended by `pairs` as its query. `None` where the two do not
/// join to an absolute URL, or are too long for one.
pub open spec fn url_of(address: Seq<char>, path: Seq<char>, pairs: Seq<(Seq<char>, Seq<char>)>) -> Option<
    Seq<char>,
> {
    if url_fits(address + path, pairs) {
        url_with_params(address + path, pairs)
    } else {
        None
    }
}

proof fn lemma_query_size_grows(pairs: Seq<(Seq<char>, Seq<char>)>, n: int)
    requires
        0 <= n <= pairs.len(),
    ensures
        query_size(pairs.take(n)) <= query_size(pairs),
    decreases pairs.len() - n,
{
    if n < pairs.len() {
        assert(pairs.take(n + 1).drop_last() =~= pairs.take(n));
        lemma_query_size_grows(pairs, n + 1);
    } else {
        assert(pairs.take(n) =~= pairs);
    }
}

/// Whether the parameters are short enough for a URL.
fn query_fits(pairs: &Vec<(String, String)>) -> (fits: bool)
    ensures
        fits == (query_size(pairs_view(pairs@)) <= MAX_URL_INPUT),
{
    let ghost all = pairs_view(pairs@);
    let mut total: usize = 0;
    let mut i: usize = 0;
    while i < pairs.len()
        invariant
            i <= pairs.len(),
            all == pairs_view(pairs@),
            total == query_size(all.take(i as int)),
            total <= MAX_URL_INPUT,
        decreases pairs.len() - i,
    {
        let name_len = pairs[i].0.as_str().as_bytes().len();
        let value_len = pairs[i].1.as_str().as_bytes().len();
        proof {
            assert(all.take(i + 1).drop_last() =~= all.take(i as int));
            assert(all.take(i + 1).last() == all[i as int]);
            lemma_query_size_grows(all, i + 1);
        }
        if name_len > MAX_URL_INPUT || value_len > MAX_URL_INPUT {
            return false;
        }
        total = total + name_len + value_len + 2;
        if total > MAX_URL_INPUT {
            return false;
        }
        i += 1;
    }
    assert(all.take(i as int) =~= all);
    true
}

/// Builds the URL of a call.
pub fn build_url(address: &str, path: &str, params: &Params) -> (built: Result<String, Error>)
    ensures
        match built {
            Ok(url) => url_of(address@, path@, params@) == Some(url@),
            Err(e) => e == Error::Url && url_of(address@, path@, params@) is None,
        },
{
    let mut input = address.to_owned();
    input.append(path);
    if input.as_str().as_bytes().len() > MAX_URL_INPUT || !query_fits(params.pairs()) {
        return Err(Error::Url);
    }
    match parse_with_params(input.as_str(), params.pairs()) {
        Ok(url) => Ok(url),
        Err(_) => Err(Error::Url),
    }
}

} // verus!
