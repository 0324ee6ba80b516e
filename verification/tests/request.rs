use consul::endpoint::MAX_URL_INPUT;
use consul::errors::Error;
use consul::params::Params;
use consul::request::delete_requests::delete;
use consul::request::get_requests::{get, get_vec};
use consul::request::post_requests::_post;
use consul::request::put_requests::put;
use consul::request::{
    add_config_options, construct_write_request_builder, names_match,
    update_params_with_query_options, wait_value, write_with_body, Method, Request,
};
use consul::{Config, QueryOptions, WriteOptions};
use rand::distributions::Alphanumeric;
use rand::{thread_rng, Rng};
use std::time::Duration;
use url::Url;

fn setup() -> (Request, String) {
    let builder = Request {
        method: Method::Get,
        url: String::from("http://127.0.0.1"),
        headers: Vec::new(),
        body: None,
    };

    let expected_token: String = thread_rng()
        .sample_iter(&Alphanumeric)
        .take(16)
        .map(char::from)
        .collect();

    (builder, expected_token)
}

#[test]
fn add_config_options_none_test() {
    let (mut builder, _) = setup();

    let mut config = Config::new();
    config.token = None;

    builder = add_config_options(builder, &config);

    let headers = &builder.headers;

    assert_eq!(headers.len(), 0);
}

#[test]
fn add_config_options_some_config_token_test() {
    let (mut builder, expected_token) = setup();

    let mut config = Config::new();
    config.token = Some(expected_token.clone());

    builder = add_config_options(builder, &config);

    let headers = &builder.headers;

    assert_eq!(headers.len(), 1);
    assert!(builder.header("x-consul-token").is_some());
    assert_eq!(builder.header("x-consul-token").unwrap(), &expected_token);
}

#[test]
fn construct_write_request_builder_with_params_and_no_body_test() {
    let path = "api/";
    let body = None;

    let mut config = Config::new();
    config.address = String::from("http://127.0.0.1:8500/");

    let mut params = Params::new();
    params.insert(String::from("ParamName"), String::from("ParamValue"));

    let request =
        construct_write_request_builder(path, body, &config, params, Method::Put).unwrap();

    assert_eq!(
        Url::parse(&request.url).unwrap(),
        Url::parse("http://127.0.0.1:8500/api/?ParamName=ParamValue").unwrap()
    );
    assert!(request.body.is_none());
}

#[test]
fn construct_write_request_builder_with_no_params_and_body_test() {
    let raw_body = String::from("body");
    let path = "api/";
    let body = Some(serde_json::to_vec(&raw_body).unwrap());

    let mut config = Config::new();
    config.address = String::from("http://127.0.0.1:8500/");

    let params = Params::new();

    let request =
        construct_write_request_builder(path, body, &config, params, Method::Put).unwrap();

    assert_eq!(
        Url::parse(&request.url).unwrap(),
        Url::parse("http://127.0.0.1:8500/api/?").unwrap()
    );

    let body_bytes = request.body.unwrap();
    let body_string = std::str::from_utf8(&body_bytes).unwrap();

    assert_eq!("\"body\"", body_string);
}

#[test]
fn update_params_with_query_options_all_options_test() {
    let config = Config::new();
    let mut params = Params::new();
    let query_options = QueryOptions {
        datacenter: Some(String::from("test_datacenter")),
        wait_index: Some(123),
        wait_time: Some(Duration::new(5, 0)),
    };

    update_params_with_query_options(&config, &mut params, Some(&query_options));

    assert_eq!(params.len(), 3);
    assert_eq!(params.get("dc").unwrap(), "test_datacenter");
    assert_eq!(params.get("index").unwrap(), "123");
    assert_eq!(params.get("wait").unwrap(), "5s");
}

#[test]
fn update_params_with_query_options_no_options_test() {
    let config = Config::new();
    let mut params = Params::new();
    let query_options = QueryOptions {
        datacenter: None,
        wait_index: None,
        wait_time: None,
    };

    update_params_with_query_options(&config, &mut params, Some(&query_options));

    assert_eq!(params.len(), 0);
}

#[test]
fn new_config_is_for_a_local_agent() {
    let config = Config::new();
    assert_eq!(config.address, "http://localhost:8500");
    assert_eq!(config.datacenter, None);
    assert_eq!(config.token, None);
}

#[test]
fn new_config_serves_absolute_paths() {
    let config = Config::new();
    let request = get("/v1/agent/checks", &config, Params::new(), None).unwrap();
    assert_eq!(
        request,
        Request {
            method: Method::Get,
            url: String::from("http://localhost:8500/v1/agent/checks?"),
            headers: Vec::new(),
            body: None,
        }
    );
}

#[test]
fn request_without_token_has_no_header() {
    let mut config = Config::new();
    config.address = String::from("http://127.0.0.1:8500/");
    let request = get("v1/agent/checks", &config, Params::new(), None).unwrap();
    assert_eq!(request.headers.len(), 0);
    assert_eq!(request.header("X-Consul-Token"), None);
}

#[test]
fn request_with_token_has_one_header() {
    let mut config = Config::new();
    config.address = String::from("http://127.0.0.1:8500/");
    config.token = Some(String::from("secret-value"));
    let options = WriteOptions { datacenter: None };
    let request = put(
        "v1/kv/key",
        Some(b"1".to_vec()),
        &config,
        Params::new(),
        Some(&options),
    )
    .unwrap();
    assert_eq!(
        request.headers,
        vec![(String::from("X-Consul-Token"), String::from("secret-value"))]
    );
    assert!(request.headers[0].0.eq_ignore_ascii_case("x-consul-token"));
    assert_eq!(
        request.header("x-consul-token"),
        Some(&String::from("secret-value"))
    );
    assert_eq!(
        request.header("X-CONSUL-TOKEN"),
        Some(&String::from("secret-value"))
    );
    assert_eq!(request.header("x-consul-index"), None);
}

#[test]
fn add_config_options_keeps_the_rest() {
    let builder = Request {
        method: Method::Post,
        url: String::from("http://127.0.0.1/x"),
        headers: vec![(String::from("Accept"), String::from("*/*"))],
        body: Some(vec![1, 2, 3]),
    };
    let mut config = Config::new();
    config.token = Some(String::from("t"));
    let request = add_config_options(builder, &config);
    assert_eq!(
        request,
        Request {
            method: Method::Post,
            url: String::from("http://127.0.0.1/x"),
            headers: vec![
                (String::from("Accept"), String::from("*/*")),
                (String::from("X-Consul-Token"), String::from("t")),
            ],
            body: Some(vec![1, 2, 3]),
        }
    );
}

#[test]
fn names_match_ignores_ascii_case_only() {
    assert!(names_match("X-Consul-Token", "x-consul-token"));
    assert!(names_match("", ""));
    assert!(names_match("aZ09-_", "Az09-_"));
    assert!(!names_match("x-consul-token", "x-consul-toke"));
    assert!(!names_match("x-consul-toke", "x-consul-token"));
    assert!(!names_match("x_consul", "x-consul"));
    assert!(!names_match("@", "`"));
    assert!(!names_match("[", "{"));
    assert!(!names_match("\u{c9}", "\u{e9}"));
    assert!(names_match("\u{e9}A", "\u{e9}a"));
    for (a, b) in [("Ab", "aB"), ("k", "K"), ("K", "\u{212a}"), ("abc", "abd")] {
        assert_eq!(names_match(a, b), a.eq_ignore_ascii_case(b));
    }
}

#[test]
fn named_datacenter_wins_over_configured() {
    let mut config = Config::new();
    config.datacenter = Some(String::from("configured"));
    let options = QueryOptions {
        datacenter: Some(String::from("named")),
        wait_index: None,
        wait_time: None,
    };
    let mut params = Params::new();
    update_params_with_query_options(&config, &mut params, Some(&options));
    assert_eq!(params.len(), 1);
    assert_eq!(params.get("dc").unwrap(), "named");

    let mut held = Params::new();
    held.insert(String::from("dc"), String::from("held"));
    held.insert(String::from("tag"), String::from("a"));
    update_params_with_query_options(&config, &mut held, Some(&options));
    assert_eq!(held.len(), 2);
    assert_eq!(held.get("dc").unwrap(), "named");
    assert_eq!(held.get("tag").unwrap(), "a");
}

#[test]
fn configured_datacenter_serves_where_none_is_named() {
    let mut config = Config::new();
    config.datacenter = Some(String::from("configured"));
    let options = QueryOptions::default();
    let mut params = Params::new();
    update_params_with_query_options(&config, &mut params, Some(&options));
    assert_eq!(params.len(), 1);
    assert_eq!(params.get("dc").unwrap(), "configured");

    let mut params = Params::new();
    update_params_with_query_options(&config, &mut params, None);
    assert_eq!(params.len(), 1);
    assert_eq!(params.get("dc").unwrap(), "configured");
}

#[test]
fn wait_of_five_seconds_is_5s() {
    let config = Config::new();
    let mut params = Params::new();
    let options = QueryOptions {
        datacenter: None,
        wait_index: None,
        wait_time: Some(Duration::from_secs(5)),
    };
    update_params_with_query_options(&config, &mut params, Some(&options));
    assert_eq!(params.len(), 1);
    assert_eq!(params.get("wait").unwrap(), "5s");
}

#[test]
fn wait_value_is_the_number_and_s() {
    assert_eq!(wait_value(0), "0s");
    assert_eq!(wait_value(5), "5s");
    assert_eq!(wait_value(600), "600s");
    assert_eq!(wait_value(u64::MAX), "18446744073709551615s");
}

#[test]
fn wait_drops_the_part_of_a_second() {
    let config = Config::new();
    let mut params = Params::new();
    let options = QueryOptions {
        datacenter: None,
        wait_index: Some(0),
        wait_time: Some(Duration::from_millis(90_999)),
    };
    update_params_with_query_options(&config, &mut params, Some(&options));
    assert_eq!(params.get("wait").unwrap(), "90s");
    assert_eq!(params.get("index").unwrap(), "0");
}

#[test]
fn index_is_written_in_decimal() {
    let config = Config::new();
    let mut params = Params::new();
    let options = QueryOptions {
        datacenter: None,
        wait_index: Some(u64::MAX),
        wait_time: None,
    };
    update_params_with_query_options(&config, &mut params, Some(&options));
    assert_eq!(params.len(), 1);
    assert_eq!(params.get("index").unwrap(), "18446744073709551615");
}

#[test]
fn no_options_add_no_parameter() {
    let mut config = Config::new();
    config.address = String::from("http://localhost:8500/");
    let mut params = Params::new();
    params.insert(String::from("passing"), String::from("1"));
    update_params_with_query_options(&config, &mut params, None);
    assert_eq!(params.len(), 1);
    assert_eq!(params.get("passing").unwrap(), "1");
    let request = get("v1/health/service/web", &config, params, None).unwrap();
    assert_eq!(
        request.url,
        "http://localhost:8500/v1/health/service/web?passing=1"
    );
}

#[test]
fn url_round_trip() {
    let mut config = Config::new();
    config.address = String::from("http://127.0.0.1:8500/");
    let mut params = Params::new();
    params.insert(String::from("ParamName"), String::from("ParamValue"));
    let request = get("api/", &config, params, None).unwrap();
    assert_eq!(request.url, "http://127.0.0.1:8500/api/?ParamName=ParamValue");
    assert_eq!(request.method, Method::Get);
    assert_eq!(request.body, None);
}

#[test]
fn query_follows_the_order_of_insertion() {
    let mut config = Config::new();
    config.address = String::from("http://127.0.0.1:8500/");
    let mut params = Params::new();
    params.insert(String::from("b"), String::from("1"));
    params.insert(String::from("a"), String::from("x y&z"));
    let options = QueryOptions {
        datacenter: Some(String::from("dc1")),
        wait_index: Some(7),
        wait_time: Some(Duration::new(10, 5)),
    };
    let expected = "http://127.0.0.1:8500/v1/kv/k?b=1&a=x+y%26z&dc=dc1&index=7&wait=10s";
    let request = get_vec("v1/kv/k", &config, params.clone(), Some(&options)).unwrap();
    assert_eq!(request.url, expected);
    let single = get("v1/kv/k", &config, params, Some(&options)).unwrap();
    assert_eq!(single, request);
}

#[test]
fn malformed_address_is_a_url_error() {
    let mut config = Config::new();
    config.address = String::from("not a url");
    assert_eq!(
        get("api/", &config, Params::new(), None),
        Err(Error::Url)
    );
    assert_eq!(
        get_vec("api/", &config, Params::new(), None),
        Err(Error::Url)
    );
    assert_eq!(
        put("api/", None, &config, Params::new(), None),
        Err(Error::Url)
    );
    config.address = String::from("http://127.0.0.1:eighty/");
    assert_eq!(
        delete("api/", &config, Params::new(), None),
        Err(Error::Url)
    );
    config.address = String::new();
    assert_eq!(
        _post("api/", None, &config, Params::new(), None),
        Err(Error::Url)
    );
}

#[test]
fn oversized_input_is_a_url_error() {
    let mut config = Config::new();
    config.address = String::from("http://127.0.0.1:8500/");
    let at_limit = "a".repeat(MAX_URL_INPUT - config.address.len());
    let request = get(&at_limit, &config, Params::new(), None).unwrap();
    assert_eq!(request.url.len(), MAX_URL_INPUT + 1);
    let over = "a".repeat(MAX_URL_INPUT - config.address.len() + 1);
    assert_eq!(get(&over, &config, Params::new(), None), Err(Error::Url));

    let mut params = Params::new();
    params.insert(String::from("k"), "v".repeat(MAX_URL_INPUT - 3));
    assert!(get("api/", &config, params, None).is_ok());
    let mut params = Params::new();
    params.insert(String::from("k"), "v".repeat(MAX_URL_INPUT - 2));
    assert_eq!(get("api/", &config, params, None), Err(Error::Url));
}

#[test]
fn write_calls_differ_in_method_only() {
    let mut config = Config::new();
    config.address = String::from("http://127.0.0.1:8500/");
    config.datacenter = Some(String::from("configured"));
    let body = Some(b"{\"a\":1}".to_vec());
    let mut params = Params::new();
    params.insert(String::from("cas"), String::from("0"));

    let expected = |method: Method, body: Option<Vec<u8>>| Request {
        method,
        url: String::from("http://127.0.0.1:8500/v1/kv/k?cas=0&dc=configured"),
        headers: Vec::new(),
        body,
    };
    assert_eq!(
        put("v1/kv/k", body.clone(), &config, params.clone(), None).unwrap(),
        expected(Method::Put, body.clone())
    );
    assert_eq!(
        _post("v1/kv/k", body.clone(), &config, params.clone(), None).unwrap(),
        expected(Method::Post, body.clone())
    );
    assert_eq!(
        delete("v1/kv/k", &config, params.clone(), None).unwrap(),
        expected(Method::Delete, None)
    );
    assert_eq!(
        write_with_body("v1/kv/k", None, &config, params, None, Method::Get).unwrap(),
        expected(Method::Get, None)
    );
}

#[test]
fn write_call_names_its_datacenter() {
    let mut config = Config::new();
    config.address = String::from("http://127.0.0.1:8500/");
    config.datacenter = Some(String::from("configured"));
    let options = WriteOptions {
        datacenter: Some(String::from("named")),
    };
    let request = put("v1/kv/k", None, &config, Params::new(), Some(&options)).unwrap();
    assert_eq!(request.url, "http://127.0.0.1:8500/v1/kv/k?dc=named");

    let unnamed = WriteOptions::default();
    let request = put("v1/kv/k", None, &config, Params::new(), Some(&unnamed)).unwrap();
    assert_eq!(request.url, "http://127.0.0.1:8500/v1/kv/k?dc=configured");

    config.datacenter = None;
    let request = put("v1/kv/k", None, &config, Params::new(), Some(&unnamed)).unwrap();
    assert_eq!(request.url, "http://127.0.0.1:8500/v1/kv/k?");
}

#[test]
fn write_payload_is_the_json_given() {
    let mut config = Config::new();
    config.address = String::from("http://127.0.0.1:8500/");
    let payload = serde_json::to_vec("body").unwrap();
    let request = put("api/", Some(payload), &config, Params::new(), None).unwrap();
    assert_eq!(request.body, Some("\"body\"".as_bytes().to_vec()));
}
