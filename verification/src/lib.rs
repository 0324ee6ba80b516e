//! The request and response logic of a client for Consul's HTTP API.
//!
//! The crate prepares requests and reads responses; it performs no I/O.
//! A call has three steps. The library builds its [`request::Request`]
//! from a path, query parameters, the configuration and the options of
//! the call. A transport sends the request and hands back what arrived as
//! a [`request::Response`]. The library reads the response: it tells
//! success from failure, has the body decoded, and reads the consistency
//! index.

use std::time::Duration;
use vstd::prelude::*;

pub mod endpoint;
pub mod errors;
pub mod params;
pub mod request;
pub mod text;
pub mod trusted;

verus! {

/// The characters of an optional string.
pub open spec fn opt_chars(s: Option<String>) -> Option<Seq<char>> {
    match s {
        Some(s) => Some(s@),
        None => None,
    }
}

/// What a client is set up with. Calls read it and never change it.
#[derive(Debug, Clone, PartialEq, Eq)]
pub struct Config {
    /// The base address; a call's path is appended to it as it stands.
    pub address: String,
    /// The datacenter of calls that name none.
    pub datacenter: Option<String>,
    /// The token that authenticates the client, where it has one.
    pub token: Option<String>,
}

/// A configuration as the contracts speak of it.
pub struct ConfigView {
    pub address: Seq<char>,
    pub datacenter: Option<Seq<char>>,
    pub token: Option<Seq<char>>,
}

impl View for Config {
    type V = ConfigView;

    open spec fn view(&self) -> ConfigView {
        ConfigView {
            address: self.address@,
            datacenter: opt_chars(self.datacenter),
            token: opt_chars(self.token),
        }
    }
}

impl Config {
    /// The configuration for an agent on this machine, without token or
    /// datacenter.
    pub fn new() -> (config: Config)
        ensures
            config@ == (ConfigView {
                address: "http://localhost:8500"@,
                datacenter: None,
                token: None,
            }),
    {
        Config { address: "http://localhost:8500".to_owned(), datacenter: None, token: None }
    }
}

/// What one read call asks for.
#[derive(Debug, Clone, PartialEq, Eq, Default)]
pub struct QueryOptions {
    /// The datacenter to ask, in place of the configured one.
    pub datacenter: Option<String>,
    /// The index last seen: the service answers once its index is past it.
    pub wait_index: Option<u64>,
    /// How long the service may hold the answer back.
    pub wait_time: Option<Duration>,
}

/// The options of a read call as the contracts speak of them.
pub struct QueryOptionsView {
    pub datacenter: Option<Seq<char>>,
    pub wait_index: Option<u64>,
    pub wait_time: Option<Duration>,
}

impl View for QueryOptions {
    type V = QueryOptionsView;

    open spec fn view(&self) -> QueryOptionsView {
        QueryOptionsView {
            datacenter: opt_chars(self.datacenter),
            wait_index: self.wait_index,
            wait_time: self.wait_time,
        }
    }
}

/// What a read call reports besides its result.
#[derive(Debug, Clone, Copy, PartialEq, Eq)]
pub struct QueryMeta {
    /// The consistency index of the response, where it carried one.
    pub last_index: Option<u64>,
    /// How long the request took.
    pub request_time: Duration,
}

/// What one write call asks for.
#[derive(Debug, Clone, PartialEq, Eq, Default)]
pub struct WriteOptions {
    /// The datacenter to write to, in place of the configured one.
    pub datacenter: Option<String>,
}

/// What a write call reports besides its result.
#[derive(Debug, Clone, Copy, PartialEq, Eq)]
pub struct WriteMeta {
    /// How long the request took.
    pub request_time: Duration,
}

} // verus!
