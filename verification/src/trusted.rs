//! What the library takes on trust: the contracts in this module are
//! stated of code that Verus does not read, and nothing proves them.

use crate::endpoint::url_fits;
use crate::params::pairs_view;
use std::time::Duration;
use url::Url;
use vstd::prelude::*;
use vstd::utf8::valid_utf8;

verus! {

/// The number of whole seconds that a duration holds.
pub uninterp spec fn duration_secs(d: Duration) -> u64;

/// `Duration::as_secs` returns the number of whole seconds that the
/// duration holds, which depends on the duration alone.
pub assume_specification[ Duration::as_secs ](d: &Duration) -> (secs: u64)
    ensures
        secs == duration_secs(*d),
;

/// `url::ParseError`: why `url` could not parse a URL. The library tells
/// no one such error from another.
#[verifier::external_type_specification]
#[verifier::external_body]
pub struct ExParseError(url::ParseError);

/// The URL, as text, that `url` parses from `input` and then extends by
/// `pairs`, in their order, as query parameters; `None` where `input` is
/// not an absolute URL.
pub uninterp spec fn url_with_params(
    input: Seq<char>,
    pairs: Seq<(Seq<char>, Seq<char>)>,
) -> Option<Seq<char>>;

/// `Url::parse_with_params` on `input` and `pairs`, with the URL handed
/// back as text.
///
/// The function parses `input`, appends the pairs in their order to the
/// query and reads nothing but its arguments, so that what it returns is
/// `url_with_params` of them: the text of the URL, or `None` where it
/// returns an error. `url` keeps offsets into a URL in 32 bits and, once
/// the pairs are appended, unwraps the conversion of the URL's length to
/// them. `url_fits` keeps the call to inputs of 16 MiB, from which no URL
/// of 4 GiB comes: percent-encoding writes three bytes for one at most,
/// and a host name in Punycode stays within a few times its length.
#[verifier::external_body]
pub(crate) fn parse_with_params(input: &str, pairs: &Vec<(String, String)>) -> (parsed: Result<
    String,
    url::ParseError,
>)
    requires
        url_fits(input@, pairs_view(pairs@)),
    ensures
        match parsed {
            Ok(text) => url_with_params(input@, pairs_view(pairs@)) == Some(text@),
            Err(_) => url_with_params(input@, pairs_view(pairs@)) is None,
        },
{
    Url::parse_with_params(input, pairs.iter()).map(String::from)
}

/// Whether `std::str::from_utf8` accepts `bytes`: it accepts the byte
/// strings that are UTF-8, and no others.
#[verifier::external_body]
pub(crate) fn is_utf8(bytes: &[u8]) -> (valid: bool)
    ensures
        valid == valid_utf8(bytes@),
{
    std::str::from_utf8(bytes).is_ok()
}

} // verus!
