//! Write calls with the method `DELETE`.

use crate::errors::Error;
use crate::params::Params;
use crate::request::{built_view, write_datacenter, write_request, write_with_body, Method, Request};
use crate::{Config, WriteOptions};
use vstd::prelude::*;

verus! {

/// Builds the request of a write call with the method `DELETE`. It
/// carries no payload.
pub fn delete(path: &str, config: &Config, params: Params, options: Option<&WriteOptions>) -> (built:
    Result<Request, Error>)
    ensures
        built_view(built) == write_request(
            Method::Delete,
            path@,
            None,
            config@,
            params@,
            write_datacenter(options),
        ),
{
    write_with_body(path, None, config, params, options, Method::Delete)
}

} // verus!
