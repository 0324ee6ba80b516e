//! Read calls: one object, or a sequence of objects.

use crate::errors::Error;
use crate::params::Params;
use crate::request::{
    built_view, construct_write_request_builder, is_success, opt_bytes, query_view, request_of,
    status_is_success, update_params_with_query_options, with_query_options, Method, Request,
    RequestView, Response,
};
use crate::text::{parse_u64, parsed_u64};
use crate::trusted::is_utf8;
use crate::{Config, ConfigView, QueryMeta, QueryOptions, QueryOptionsView};
use std::time::Duration;
use vstd::prelude::*;
use vstd::utf8::valid_utf8;

verus! {

/// The request of a read call: a `GET` whose query is `params` with what
/// the options add.
pub open spec fn read_request(
    path: Seq<char>,
    config: ConfigView,
    params: Seq<(Seq<char>, Seq<char>)>,
    options: Option<QueryOptionsView>,
) -> Result<RequestView, Error> {
    request_of(Method::Get, path, None, config, with_query_options(config, params, options))
}

/// Builds the request of a call that reads one object.
pub fn get(path: &str, config: &Config, params: Params, options: Option<&QueryOptions>) -> (built:
    Result<Request, Error>)
    ensures
        built_view(built) == read_request(path@, config@, params@, query_view(options)),
{
    let mut params = params;
    update_params_with_query_options(config, &mut params, options);
    construct_write_request_builder(path, None, config, params, Method::Get)
}

/// Builds the request of a call that reads a sequence of objects. It is
/// the request that `get` builds; the two calls differ in how they read
/// the response.
pub fn get_vec(path: &str, config: &Config, params: Params, options: Option<&QueryOptions>) -> (built:
    Result<Request, Error>)
    ensures
        built_view(built) == read_request(path@, config@, params@, query_view(options)),
{
    get(path, config, params, options)
}

/// The consistency index that a response carries in `header`: none where
/// it has no such header, an error where the header is not UTF-8 or does
/// not write a `u64` in decimal.
pub open spec fn index_of(header: Option<Seq<u8>>) -> Result<Option<u64>, Error> {
    match header {
        None => Ok(None),
        Some(bytes) => if !valid_utf8(bytes) {
            Err(Error::IndexEncoding)
        } else {
            match parsed_u64(bytes) {
                Some(index) => Ok(Some(index)),
                None => Err(Error::IndexNumber),
            }
        },
    }
}

/// Reads the consistency index of a response.
pub fn last_index(header: &Option<Vec<u8>>) -> (index: Result<Option<u64>, Error>)
    ensures
        index == index_of(opt_bytes(*header)),
{
    match header {
        None => Ok(None),
        Some(bytes) => {
            if !is_utf8(bytes.as_slice()) {
                return Err(Error::IndexEncoding);
            }
            match parse_u64(bytes.as_slice()) {
                Some(index) => Ok(Some(index)),
                None => Err(Error::IndexNumber),
            }
        },
    }
}

/// What a read call returns for a body that decoded to `decoded`, or did
/// not decode, and for the index read from the response. A body that
/// does not decode is reported before an index that cannot be read.
pub open spec fn read_result<R>(
    decoded: Option<R>,
    index: Result<Option<u64>, Error>,
    request_time: Duration,
) -> Result<(R, QueryMeta), Error> {
    match decoded {
        None => Err(Error::Body),
        Some(value) => match index {
            Ok(last_index) => Ok((value, QueryMeta { last_index, request_time })),
            Err(e) => Err(e),
        },
    }
}

/// Pairs what the decoder gave with the index and the time that the
/// request took.
pub fn finish_read<R>(
    decoded: Option<R>,
    index: Result<Option<u64>, Error>,
    request_time: Duration,
) -> (result: Result<(R, QueryMeta), Error>)
    ensures
        result == read_result(decoded, index, request_time),
{
    match decoded {
        None => Err(Error::Body),
        Some(value) => match index {
            Ok(last_index) => Ok((value, QueryMeta { last_index, request_time })),
            Err(e) => Err(e),
        },
    }
}

/// Reads the response to a call that reads one object. `reply` is `None`
/// where no response arrived. A response that reports success has its
/// body decoded, once; any other is an error, and its body is left alone.
pub fn get_response<R, D: FnOnce(Vec<u8>) -> Option<R>>(
    reply: Option<Response>,
    decode: D,
    request_time: Duration,
) -> (result: Result<(R, QueryMeta), Error>)
    requires
        reply matches Some(response) ==> is_success(response.status) ==> decode.requires(
            (response.body,),
        ),
    ensures
        match reply {
            None => result == Err::<(R, QueryMeta), Error>(Error::Transport),
            Some(response) => if is_success(response.status) {
                exists|decoded: Option<R>|
                    decode.ensures((response.body,), decoded) && result == read_result(
                        decoded,
                        index_of(opt_bytes(response.index)),
                        request_time,
                    )
            } else {
                result == Err::<(R, QueryMeta), Error>(Error::Status(response.status))
            },
        },
{
    let response = match reply {
        Some(response) => response,
        None => {
            return Err(Error::Transport);
        },
    };
    if !status_is_success(response.status) {
        return Err(Error::Status(response.status));
    }
    let index = last_index(&response.index);
    let decoded = decode(response.body);
    finish_read(decoded, index, request_time)
}

/// What a sequence read returns for a response that reports "not found":
/// no objects, whatever the body holds.
pub open spec fn not_found_result<R>(
    result: Result<(Vec<R>, QueryMeta), Error>,
    index: Result<Option<u64>, Error>,
    request_time: Duration,
) -> bool {
    match index {
        Ok(last_index) => result matches Ok((objects, meta)) && objects@.len() == 0 && meta
            == (QueryMeta { last_index, request_time }),
        Err(e) => result == Err::<(Vec<R>, QueryMeta), Error>(e),
    }
}

/// A sequence read that is answered "not found" returns no objects,
/// whatever the body of the response holds. It fails only where the index
/// of the response cannot be read, and never over the body.
pub proof fn lemma_not_found_is_empty<R>(
    result: Result<(Vec<R>, QueryMeta), Error>,
    header: Option<Seq<u8>>,
    request_time: Duration,
)
    requires
        not_found_result(result, index_of(header), request_time),
    ensures
        result != Err::<(Vec<R>, QueryMeta), Error>(Error::Body),
        result matches Ok((objects, _)) ==> objects@.len() == 0,
        result is Ok <==> index_of(header) is Ok,
        header is None ==> result is Ok,
{
}

/// Reads the response to a call that reads a sequence of objects. It
/// reads as `get_response` does, but for the status 404: the service
/// answers so where it has no objects, and the call returns none, without
/// decoding the body.
pub fn get_vec_response<R, D: FnOnce(Vec<u8>) -> Option<Vec<R>>>(
    reply: Option<Response>,
    decode: D,
    request_time: Duration,
) -> (result: Result<(Vec<R>, QueryMeta), Error>)
    requires
        reply matches Some(response) ==> is_success(response.status) ==> decode.requires(
            (response.body,),
        ),
    ensures
        match reply {
            None => result == Err::<(Vec<R>, QueryMeta), Error>(Error::Transport),
            Some(response) => if response.status == 404 {
                not_found_result(result, index_of(opt_bytes(response.index)), request_time)
            } else if is_success(response.status) {
                exists|decoded: Option<Vec<R>>|
                    decode.ensures((response.body,), decoded) && result == read_result(
                        decoded,
                        index_of(opt_bytes(response.index)),
                        request_time,
                    )
            } else {
                result == Err::<(Vec<R>, QueryMeta), Error>(Error::Status(response.status))
            },
        },
{
    let response = match reply {
        Some(response) => response,
        None => {
            return Err(Error::Transport);
        },
    };
    let index = last_index(&response.index);
    if response.status == 404 {
        return finish_read(Some(Vec::new()), index, request_time);
    }
    if !status_is_success(response.status) {
        return Err(Error::Status(response.status));
    }
    let decoded = decode(response.body);
    finish_read(decoded, index, request_time)
}

} // verus!
