//! Requests as the library prepares them, and the parts that all calls
//! share.

use crate::endpoint::{build_url, url_of};
use crate::errors::Error;
use crate::params::{
    keys_distinct, lemma_put_holds, lemma_put_keeps, pairs_view, put, value_of, Params,
};
use crate::text::{decimal, to_decimal};
use crate::trusted::duration_secs;
use crate::{
    opt_chars, Config, ConfigView, QueryOptions, QueryOptionsView, WriteMeta, WriteOptions,
};
use std::time::Duration;
use vstd::prelude::*;
use vstd::std_specs::iter::IteratorSpec;
use vstd::string::*;

pub mod delete_requests;
pub mod get_requests;
pub mod post_requests;
pub mod put_requests;

verus! {

/// The HTTP method of a request.
#[derive(Debug, Clone, Copy, PartialEq, Eq, Structural)]
pub enum Method {
    Get,
    Put,
    Post,
    Delete,
}

/// A request, ready to be sent.
#[derive(Debug, Clone, PartialEq, Eq)]
pub struct Request {
    pub method: Method,
    /// The address, the path and the query, as one URL.
    pub url: String,
    /// The headers that the library sets, each a name and a value.
    pub headers: Vec<(String, String)>,
    /// The payload, in JSON; `None` where the request carries none.
    pub body: Option<Vec<u8>>,
}

/// A request as the contracts speak of it.
pub struct RequestView {
    pub method: Method,
    pub url: Seq<char>,
    pub headers: Seq<(Seq<char>, Seq<char>)>,
    pub body: Option<Seq<u8>>,
}

/// What came back for a request.
#[derive(Debug, Clone, PartialEq, Eq)]
pub struct Response {
    /// The status code.
    pub status: u16,
    /// The value of the header `X-Consul-Index`, where the response has
    /// the header.
    pub index: Option<Vec<u8>>,
    /// The body, as it arrived.
    pub body: Vec<u8>,
}

/// The bytes of an optional buffer.
pub open spec fn opt_bytes(b: Option<Vec<u8>>) -> Option<Seq<u8>> {
    match b {
        Some(b) => Some(b@),
        None => None,
    }
}

impl View for Request {
    type V = RequestView;

    open spec fn view(&self) -> RequestView {
        RequestView {
            method: self.method,
            url: self.url@,
            headers: pairs_view(self.headers@),
            body: opt_bytes(self.body),
        }
    }
}

/// A built request, or why none was built, by its view.
pub open spec fn built_view(built: Result<Request, Error>) -> Result<RequestView, Error> {
    match built {
        Ok(request) => Ok(request@),
        Err(e) => Err(e),
    }
}

/// The options of a read call, by their view.
pub open spec fn query_view(options: Option<&QueryOptions>) -> Option<QueryOptionsView> {
    match options {
        Some(o) => Some(o@),
        None => None,
    }
}

/// The datacenter that a write call names.
pub open spec fn write_datacenter(options: Option<&WriteOptions>) -> Option<Seq<char>> {
    match options {
        Some(o) => opt_chars(o.datacenter),
        None => None,
    }
}

/// The datacenter that a read call names.
pub open spec fn query_datacenter(options: Option<QueryOptionsView>) -> Option<Seq<char>> {
    match options {
        Some(o) => o.datacenter,
        None => None,
    }
}

/// The datacenter of a call: the one it names, else the configured one.
pub open spec fn chosen_datacenter(configured: Option<Seq<char>>, named: Option<Seq<char>>) -> Option<
    Seq<char>,
> {
    if named is Some {
        named
    } else {
        configured
    }
}

/// `params` with the datacenter of the call, where it has one, under `dc`.
pub open spec fn with_datacenter(
    params: Seq<(Seq<char>, Seq<char>)>,
    configured: Option<Seq<char>>,
    named: Option<Seq<char>>,
) -> Seq<(Seq<char>, Seq<char>)> {
    match chosen_datacenter(configured, named) {
        Some(dc) => put(params, "dc"@, dc),
        None => params,
    }
}

/// The text of a wait of `secs` seconds.
pub open spec fn wait_text(secs: u64) -> Seq<char> {
    decimal(secs as nat) + "s"@
}

/// `params` with what a read call adds: the datacenter under `dc`, the
/// index last seen under `index`, the time to wait under `wait`.
pub open spec fn with_query_options(
    config: ConfigView,
    params: Seq<(Seq<char>, Seq<char>)>,
    options: Option<QueryOptionsView>,
) -> Seq<(Seq<char>, Seq<char>)> {
    let located = with_datacenter(params, config.datacenter, query_datacenter(options));
    match options {
        None => located,
        Some(o) => {
            let indexed = match o.wait_index {
                Some(index) => put(located, "index"@, decimal(index as nat)),
                None => located,
            };
            match o.wait_time {
                Some(time) => put(indexed, "wait"@, wait_text(duration_secs(time))),
                None => indexed,
            }
        },
    }
}

/// `headers` with the token, where there is one, as a last header.
pub open spec fn with_token(headers: Seq<(Seq<char>, Seq<char>)>, token: Option<Seq<char>>) -> Seq<
    (Seq<char>, Seq<char>),
> {
    match token {
        Some(token) => headers.push(("X-Consul-Token"@, token)),
        None => headers,
    }
}

/// The request of a call with `method` to `path`, with `params` as its
/// whole query.
pub open spec fn request_of(
    method: Method,
    path: Seq<char>,
    body: Option<Seq<u8>>,
    config: ConfigView,
    params: Seq<(Seq<char>, Seq<char>)>,
) -> Result<RequestView, Error> {
    match url_of(config.address, path, params) {
        Some(url) => Ok(
            RequestView { method, url, headers: with_token(Seq::empty(), config.token), body },
        ),
        None => Err(Error::Url),
    }
}

/// The request of a write call.
pub open spec fn write_request(
    method: Method,
    path: Seq<char>,
    body: Option<Seq<u8>>,
    config: ConfigView,
    params: Seq<(Seq<char>, Seq<char>)>,
    named: Option<Seq<char>>,
) -> Result<RequestView, Error> {
    request_of(method, path, body, config, with_datacenter(params, config.datacenter, named))
}

/// An ASCII capital as its small letter; any other character as it is.
pub open spec fn ascii_lower(c: char) -> char {
    if 'A' <= c && c <= 'Z' {
        ((c as u8) + 32) as char
    } else {
        c
    }
}

/// Whether two header names are the same name: HTTP tells no ASCII
/// capital from its small letter.
pub open spec fn same_name(a: Seq<char>, b: Seq<char>) -> bool {
    a.len() == b.len() && forall|i: int|
        0 <= i < a.len() ==> ascii_lower(#[trigger] a[i]) == ascii_lower(b[i])
}

/// The value of the first header of `headers` that is named `name`.
pub open spec fn header_value(headers: Seq<(Seq<char>, Seq<char>)>, name: Seq<char>) -> Option<
    Seq<char>,
>
    decreases headers.len(),
{
    if headers.len() == 0 {
        None
    } else if same_name(headers[0].0, name) {
        Some(headers[0].1)
    } else {
        header_value(headers.drop_first(), name)
    }
}

fn lower(c: char) -> (l: char)
    ensures
        l == ascii_lower(c),
{
    if 'A' <= c && c <= 'Z' {
        ((c as u8) + 32) as char
    } else {
        c
    }
}

/// Whether `a` and `b` are the same header name.
pub fn names_match(a: &str, b: &str) -> (same: bool)
    ensures
        same == same_name(a@, b@),
{
    broadcast use vstd::string::group_string_axioms;

    let mut left = a.chars();
    let mut right = b.chars();
    let ghost mut seen: int = 0;
    loop
        invariant
            0 <= seen <= a@.len(),
            seen <= b@.len(),
            left.remaining() == a@.skip(seen),
            right.remaining() == b@.skip(seen),
            forall|i: int| 0 <= i < seen ==> ascii_lower(#[trigger] a@[i]) == ascii_lower(b@[i]),
        decreases a@.len() - seen,
    {
        match (left.next(), right.next()) {
            (Some(x), Some(y)) => {
                if lower(x) != lower(y) {
                    assert(ascii_lower(a@[seen]) != ascii_lower(b@[seen]));
                    return false;
                }
                proof {
                    assert(a@.skip(seen).drop_first() =~= a@.skip(seen + 1));
                    assert(b@.skip(seen).drop_first() =~= b@.skip(seen + 1));
                    seen = seen + 1;
                }
            },
            (None, None) => {
                return true;
            },
            _ => {
                return false;
            },
        }
    }
}

impl Request {
    /// The value of the first header named `name`.
    pub fn header(&self, name: &str) -> (value: Option<&String>)
        ensures
            match value {
                Some(v) => header_value(self@.headers, name@) == Some(v@),
                None => header_value(self@.headers, name@) is None,
            },
    {
        let ghost all = self@.headers;
        let mut i: usize = 0;
        assert(all.skip(0) =~= all);
        while i < self.headers.len()
            invariant
                i <= self.headers.len(),
                all == pairs_view(self.headers@),
                header_value(all, name@) == header_value(all.skip(i as int), name@),
            decreases self.headers.len() - i,
        {
            proof {
                assert(all.skip(i as int).drop_first() =~= all.skip(i + 1));
            }
            if names_match(self.headers[i].0.as_str(), name) {
                return Some(&self.headers[i].1);
            }
            i += 1;
        }
        None
    }
}

/// A request that is built for a configuration without token carries no
/// header. One that is built for a configuration with a token carries one
/// header: its name is `x-consul-token`, its value the token.
pub proof fn lemma_token_is_the_only_header(
    method: Method,
    path: Seq<char>,
    body: Option<Seq<u8>>,
    config: ConfigView,
    params: Seq<(Seq<char>, Seq<char>)>,
)
    ensures
        match request_of(method, path, body, config, params) {
            Ok(request) => match config.token {
                None => request.headers.len() == 0,
                Some(token) => request.headers.len() == 1 && request.headers[0].1 == token
                    && same_name(request.headers[0].0, "x-consul-token"@) && header_value(
                    request.headers,
                    "x-consul-token"@,
                ) == Some(token),
            },
            Err(_) => true,
        },
{
    reveal_strlit("X-Consul-Token");
    reveal_strlit("x-consul-token");
}

/// The datacenter that a call names stands under `dc`, whatever the
/// configuration or the parameters held there.
pub proof fn lemma_named_datacenter_wins(
    config: ConfigView,
    params: Seq<(Seq<char>, Seq<char>)>,
    options: QueryOptionsView,
    datacenter: Seq<char>,
)
    requires
        keys_distinct(params),
        options.datacenter == Some(datacenter),
    ensures
        value_of(with_query_options(config, params, Some(options)), "dc"@) == Some(datacenter),
        value_of(with_datacenter(params, config.datacenter, Some(datacenter)), "dc"@) == Some(
            datacenter,
        ),
{
    reveal_strlit("dc");
    reveal_strlit("index");
    reveal_strlit("wait");
    assert("dc"@.len() == 2 && "index"@.len() == 5 && "wait"@.len() == 4);
    let located = with_datacenter(params, config.datacenter, Some(datacenter));
    lemma_put_holds(params, "dc"@, datacenter);
    let indexed = match options.wait_index {
        Some(index) => put(located, "index"@, decimal(index as nat)),
        None => located,
    };
    if let Some(index) = options.wait_index {
        lemma_put_holds(located, "index"@, decimal(index as nat));
        lemma_put_keeps(located, "index"@, decimal(index as nat), "dc"@);
    }
    if let Some(time) = options.wait_time {
        lemma_put_keeps(indexed, "wait"@, wait_text(duration_secs(time)), "dc"@);
    }
}

/// A read call that asks to wait has the whole seconds of the wait under
/// `wait`, in decimal and followed by `s`: `5s` for five seconds.
pub proof fn lemma_wait_in_seconds(
    config: ConfigView,
    params: Seq<(Seq<char>, Seq<char>)>,
    options: QueryOptionsView,
    time: Duration,
)
    requires
        keys_distinct(params),
        options.wait_time == Some(time),
    ensures
        value_of(with_query_options(config, params, Some(options)), "wait"@) == Some(
            wait_text(duration_secs(time)),
        ),
        wait_text(5) == "5s"@,
{
    reveal_strlit("5s");
    reveal_strlit("s");
    assert(wait_text(5) =~= "5s"@);
    let located = with_datacenter(params, config.datacenter, options.datacenter);
    if let Some(dc) = chosen_datacenter(config.datacenter, options.datacenter) {
        lemma_put_holds(params, "dc"@, dc);
    }
    let indexed = match options.wait_index {
        Some(index) => put(located, "index"@, decimal(index as nat)),
        None => located,
    };
    if let Some(index) = options.wait_index {
        lemma_put_holds(located, "index"@, decimal(index as nat));
    }
    lemma_put_holds(indexed, "wait"@, wait_text(duration_secs(time)));
}

/// A read call without options adds no parameter, where no datacenter is
/// configured.
pub proof fn lemma_no_options_add_nothing(
    config: ConfigView,
    params: Seq<(Seq<char>, Seq<char>)>,
    options: QueryOptionsView,
)
    requires
        config.datacenter is None,
        options.datacenter is None,
        options.wait_index is None,
        options.wait_time is None,
    ensures
        with_query_options(config, params, Some(options)) == params,
        with_query_options(config, params, None) == params,
{
}

/// The datacenter of a call that names `named`.
fn datacenter_of<'a>(config: &'a Config, named: Option<&'a String>) -> (chosen: Option<&'a String>)
    ensures
        match chosen {
            Some(dc) => chosen_datacenter(
                config@.datacenter,
                match named {
                    Some(n) => Some(n@),
                    None => None,
                },
            ) == Some(dc@),
            None => named is None && config.datacenter is None,
        },
{
    match named {
        Some(dc) => Some(dc),
        None => config.datacenter.as_ref(),
    }
}

/// Writes a wait of `secs` seconds as the service reads it: the number,
/// then `s`.
pub fn wait_value(secs: u64) -> (text: String)
    ensures
        text@ == wait_text(secs),
{
    let mut text = to_decimal(secs);
    text.append("s");
    text
}

/// Adds the configured token to a request, as the header `X-Consul-Token`.
/// A configuration without token adds nothing.
pub fn add_config_options(builder: Request, config: &Config) -> (request: Request)
    ensures
        request@ == (RequestView {
            headers: with_token(builder@.headers, config@.token),
            ..builder@
        }),
{
    let ghost before = builder@.headers;
    let mut request = builder;
    match &config.token {
        Some(token) => {
            request.headers.push(("X-Consul-Token".to_owned(), token.clone()));
            assert(pairs_view(request.headers@) =~= with_token(before, config@.token));
        },
        None => {},
    }
    request
}

/// Builds the request of a call with `method` to `path`: the URL from
/// the address, the path and `params`, the payload where there is one,
/// and the token. Nothing is built where the URL cannot be.
pub fn construct_write_request_builder(
    path: &str,
    body: Option<Vec<u8>>,
    config: &Config,
    params: Params,
    method: Method,
) -> (built: Result<Request, Error>)
    ensures
        built_view(built) == request_of(method, path@, opt_bytes(body), config@, params@),
{
    let url = match build_url(config.address.as_str(), path, &params) {
        Ok(url) => url,
        Err(e) => {
            return Err(e);
        },
    };
    let builder = Request { method, url, headers: Vec::new(), body };
    assert(builder@.headers =~= Seq::empty());
    Ok(add_config_options(builder, config))
}

/// Adds to `params` what a read call asks for: its datacenter, or else
/// the configured one, under `dc`; the index last seen under `index`; the
/// time to wait, in whole seconds and followed by `s`, under `wait`.
pub fn update_params_with_query_options(
    config: &Config,
    params: &mut Params,
    options: Option<&QueryOptions>,
)
    ensures
        final(params)@ == with_query_options(config@, old(params)@, query_view(options)),
{
    let named = match options {
        Some(o) => o.datacenter.as_ref(),
        None => None,
    };
    if let Some(dc) = datacenter_of(config, named) {
        params.insert("dc".to_owned(), dc.clone());
    }
    if let Some(options) = options {
        if let Some(index) = options.wait_index {
            params.insert("index".to_owned(), to_decimal(index));
        }
        if let Some(wait_time) = options.wait_time {
            params.insert("wait".to_owned(), wait_value(wait_time.as_secs()));
        }
    }
}

/// Builds the request of a write call: `params` with the datacenter of
/// the call under `dc`, then as `construct_write_request_builder` does.
pub fn write_with_body(
    path: &str,
    body: Option<Vec<u8>>,
    config: &Config,
    params: Params,
    options: Option<&WriteOptions>,
    method: Method,
) -> (built: Result<Request, Error>)
    ensures
        built_view(built) == write_request(
            method,
            path@,
            opt_bytes(body),
            config@,
            params@,
            write_datacenter(options),
        ),
{
    let mut params = params;
    let named = match options {
        Some(o) => o.datacenter.as_ref(),
        None => None,
    };
    if let Some(dc) = datacenter_of(config, named) {
        params.insert("dc".to_owned(), dc.clone());
    }
    construct_write_request_builder(path, body, config, params, method)
}

/// Whether `status` reports success.
pub open spec fn is_success(status: u16) -> bool {
    200 <= status <= 299
}

/// Whether `status` reports success.
pub fn status_is_success(status: u16) -> (success: bool)
    ensures
        success == is_success(status),
{
    200 <= status && status <= 299
}

/// What a write call returns once the body of its response was handed to
/// the decoder, which gave `decoded`.
pub open spec fn write_result<R>(decoded: Option<R>, request_time: Duration) -> Result<
    (R, WriteMeta),
    Error,
> {
    match decoded {
        Some(value) => Ok((value, WriteMeta { request_time })),
        None => Err(Error::Body),
    }
}

/// Pairs what the decoder gave with the time that the request took.
pub fn finish_write<R>(decoded: Option<R>, request_time: Duration) -> (result: Result<
    (R, WriteMeta),
    Error,
>)
    ensures
        result == write_result(decoded, request_time),
{
    match decoded {
        Some(value) => Ok((value, WriteMeta { request_time })),
        None => Err(Error::Body),
    }
}

/// Reads the response to a write call. `reply` is `None` where no
/// response arrived. A response that reports success has its body
/// decoded, once; any other is an error, and its body is left alone.
pub fn write_response<R, D: FnOnce(Vec<u8>) -> Option<R>>(
    reply: Option<Response>,
    decode: D,
    request_time: Duration,
) -> (result: Result<(R, WriteMeta), Error>)
    requires
        reply matches Some(response) ==> is_success(response.status) ==> decode.requires(
            (response.body,),
        ),
    ensures
        match reply {
            None => result == Err::<(R, WriteMeta), Error>(Error::Transport),
            Some(response) => if is_success(response.status) {
                exists|decoded: Option<R>|
                    decode.ensures((response.body,), decoded) && result == write_result(
                        decoded,
                        request_time,
                    )
            } else {
                result == Err::<(R, WriteMeta), Error>(Error::Status(response.status))
            },
        },
{
    let response = match reply {
        Some(response) => response,
        None => {
            return Err(Error::Transport);
        },
    };
    if !status_is_success(response.status) {
        return Err(Error::Status(response.status));
    }
    let decoded = decode(response.body);
    finish_write(decoded, request_time)
}

} // verus!
