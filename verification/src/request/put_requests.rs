//! Write calls with the method `PUT`.

use crate::errors::Error;
use crate::params::Params;
use crate::request::{
    built_view, opt_bytes, write_datacenter, write_request, write_with_body, Method, Request,
};
use crate::{Config, WriteOptions};
use vstd::prelude::*;

verus! {

/// Builds the request of a write call with the method `PUT`.
pub fn put(
    path: &str,
    body: Option<Vec<u8>>,
    config: &Config,
    params: Params,
    options: Option<&WriteOptions>,
) -> (built: Result<Request, Error>)
    ensures
        built_view(built) == write_request(
            Method::Put,
            path@,
            opt_bytes(body),
            config@,
            params@,
            write_datacenter(options),
        ),
{
    write_with_body(path, body, config, params, options, Method::Put)
}

} // verus!
