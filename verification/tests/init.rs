use service_core::init::{
    all_header_values, find_var, parse_flag, parse_server_url, ConfigError, Setting,
    SocketAddress, StartOptions,
};

fn address() -> SocketAddress {
    SocketAddress::V4 { octets: [127, 0, 0, 1], port: 3000 }
}

fn bind() -> Option<SocketAddress> {
    Some(address())
}

fn env(pairs: &[(&str, &str)]) -> Vec<(String, String)> {
    pairs.iter().map(|(k, v)| (String::from(*k), String::from(*v))).collect()
}

fn complete() -> Vec<(String, String)> {
    env(&[
        ("BIND_ADDRESS", "127.0.0.1:3000"),
        ("SERVER_URL", "https://api.example.com/base"),
        ("DATABASE_URL", "postgres://user:pw@localhost/db"),
        ("MAX_DB_CONNECTIONS", "10"),
        ("MEMCACHED_URL", "memcache://127.0.0.1:11211"),
        ("SECURE_PROXY", "true"),
        ("CORS_ORIGINS", "https://allowed.example,https://other.example"),
        ("GLOBAL_LIMIT_REQUESTS", "100"),
        ("GLOBAL_LIMIT_PER_SECONDS", "60"),
        ("REQUEST_BUFFER_SIZE", "1024"),
    ])
}

fn without(name: &str) -> Vec<(String, String)> {
    complete().into_iter().filter(|(k, _)| k != name).collect()
}

fn with(name: &str, value: &str) -> Vec<(String, String)> {
    complete()
        .into_iter()
        .map(|(k, v)| if k == name { (k, String::from(value)) } else { (k, v) })
        .collect()
}

#[test]
fn from_env_reads_a_complete_environment() {
    let options = StartOptions::from_env(&complete(), bind()).unwrap();
    assert_eq!(
        options,
        StartOptions {
            bind_address: address(),
            server_url: String::from("https://api.example.com/base"),
            database_url: String::from("postgres://user:pw@localhost/db"),
            max_db_connections: 10,
            memcached_url: String::from("memcache://127.0.0.1:11211"),
            secure_proxy: true,
            cors_origins: vec![
                String::from("https://allowed.example"),
                String::from("https://other.example")
            ],
            global_limit_requests: 100,
            global_limit_per_seconds: 60,
            request_buffer_size: 1024,
        }
    );
    assert_eq!(options.clone(), options);
}

#[test]
fn from_env_reports_each_missing_variable() {
    let settings = [
        Setting::BindAddress,
        Setting::ServerUrl,
        Setting::DatabaseUrl,
        Setting::MaxDbConnections,
        Setting::MemcachedUrl,
        Setting::SecureProxy,
        Setting::CorsOrigins,
        Setting::GlobalLimitRequests,
        Setting::GlobalLimitPerSeconds,
        Setting::RequestBufferSize,
    ];
    for setting in settings {
        assert_eq!(
            StartOptions::from_env(&without(setting.name()), bind()),
            Err(ConfigError::Missing(setting))
        );
    }
    assert_eq!(StartOptions::from_env(&Vec::new(), bind()), Err(ConfigError::Missing(Setting::BindAddress)));
}

#[test]
fn from_env_reports_the_first_failure_in_reading_order() {
    let mut vars = with("REQUEST_BUFFER_SIZE", "many");
    vars.retain(|(k, _)| k != "MEMCACHED_URL");
    assert_eq!(StartOptions::from_env(&vars, bind()), Err(ConfigError::Missing(Setting::MemcachedUrl)));
    let vars: Vec<(String, String)> = with("SECURE_PROXY", "yes")
        .into_iter()
        .map(|(k, v)| if k == "MAX_DB_CONNECTIONS" { (k, String::from("-3")) } else { (k, v) })
        .collect();
    assert_eq!(StartOptions::from_env(&vars, bind()), Err(ConfigError::Invalid(Setting::MaxDbConnections)));
}

#[test]
fn from_env_checks_the_server_url() {
    assert_eq!(
        StartOptions::from_env(&with("SERVER_URL", "not a url"), bind()),
        Err(ConfigError::Invalid(Setting::ServerUrl))
    );
    assert_eq!(
        StartOptions::from_env(&with("SERVER_URL", ""), bind()),
        Err(ConfigError::Invalid(Setting::ServerUrl))
    );
    assert_eq!(
        StartOptions::from_env(&with("SERVER_URL", "data:text/plain,Stuff"), bind()),
        Err(ConfigError::ServerUrlWithoutHost)
    );
    assert_eq!(
        StartOptions::from_env(&with("SERVER_URL", "unix:/run/foo.socket"), bind()),
        Err(ConfigError::ServerUrlWithoutHost)
    );
    let options = StartOptions::from_env(&with("SERVER_URL", "ftp://rms@example.com"), bind()).unwrap();
    assert_eq!(options.server_url, "ftp://rms@example.com");
}

#[test]
fn from_env_agrees_with_the_url_crate_on_hosts() {
    for text in ["https://example.com", "http://[::1]:80/", "mailto:a@b.c", "x", "//no-scheme", "file:///etc"] {
        let expected = match url::Url::parse(text) {
            Err(_) => Some(ConfigError::Invalid(Setting::ServerUrl)),
            Ok(url) if url.host().is_none() => Some(ConfigError::ServerUrlWithoutHost),
            Ok(_) => None,
        };
        assert_eq!(StartOptions::from_env(&with("SERVER_URL", text), bind()).err(), expected, "{:?}", text);
    }
}

#[test]
fn from_env_checks_the_numbers() {
    assert_eq!(
        StartOptions::from_env(&with("MAX_DB_CONNECTIONS", "4294967296"), bind()),
        Err(ConfigError::Invalid(Setting::MaxDbConnections))
    );
    assert_eq!(
        StartOptions::from_env(&with("MAX_DB_CONNECTIONS", "4294967295"), bind()).unwrap().max_db_connections,
        u32::MAX
    );
    assert_eq!(
        StartOptions::from_env(&with("GLOBAL_LIMIT_REQUESTS", "18446744073709551616"), bind()),
        Err(ConfigError::Invalid(Setting::GlobalLimitRequests))
    );
    assert_eq!(
        StartOptions::from_env(&with("GLOBAL_LIMIT_REQUESTS", "18446744073709551615"), bind())
            .unwrap()
            .global_limit_requests,
        u64::MAX
    );
    assert_eq!(
        StartOptions::from_env(&with("GLOBAL_LIMIT_PER_SECONDS", "1s"), bind()),
        Err(ConfigError::Invalid(Setting::GlobalLimitPerSeconds))
    );
    assert_eq!(
        StartOptions::from_env(&with("REQUEST_BUFFER_SIZE", ""), bind()),
        Err(ConfigError::Invalid(Setting::RequestBufferSize))
    );
    assert_eq!(
        StartOptions::from_env(&with("REQUEST_BUFFER_SIZE", "+8"), bind()).unwrap().request_buffer_size,
        8
    );
}

#[test]
fn from_env_checks_the_proxy_flag() {
    assert!(StartOptions::from_env(&with("SECURE_PROXY", "true"), bind()).unwrap().secure_proxy);
    assert!(!StartOptions::from_env(&with("SECURE_PROXY", "false"), bind()).unwrap().secure_proxy);
    for text in ["", "True", "TRUE", "1", "0", "yes", " true", "false "] {
        assert_eq!(
            StartOptions::from_env(&with("SECURE_PROXY", text), bind()),
            Err(ConfigError::Invalid(Setting::SecureProxy))
        );
    }
}

#[test]
fn from_env_splits_and_checks_the_origins() {
    let options = StartOptions::from_env(&with("CORS_ORIGINS", ""), bind()).unwrap();
    assert_eq!(options.cors_origins, vec![String::new()]);
    let options = StartOptions::from_env(&with("CORS_ORIGINS", "a,,b\tc, d é"), bind()).unwrap();
    assert_eq!(options.cors_origins, vec!["a", "", "b\tc", " d é"]);
    assert_eq!(
        StartOptions::from_env(&with("CORS_ORIGINS", "https://a.example,bad\nvalue"), bind()),
        Err(ConfigError::Invalid(Setting::CorsOrigins))
    );
    assert_eq!(
        StartOptions::from_env(&with("CORS_ORIGINS", "\u{7f}"), bind()),
        Err(ConfigError::Invalid(Setting::CorsOrigins))
    );
}

#[test]
fn from_env_takes_the_first_of_two_variables_of_one_name() {
    let mut vars = complete();
    vars.push((String::from("SECURE_PROXY"), String::from("false")));
    vars.insert(0, (String::from("UNRELATED"), String::from("x")));
    assert!(StartOptions::from_env(&vars, bind()).unwrap().secure_proxy);
}

#[test]
fn find_var_returns_the_first_match() {
    let vars = env(&[("A", "1"), ("B", "2"), ("A", "3")]);
    assert_eq!(find_var(&vars, "A"), Some(&String::from("1")));
    assert_eq!(find_var(&vars, "B"), Some(&String::from("2")));
    assert_eq!(find_var(&vars, "C"), None);
    assert_eq!(find_var(&vars, "a"), None);
    assert_eq!(find_var(&Vec::new(), "A"), None);
}

#[test]
fn parse_flag_knows_two_spellings() {
    assert_eq!(parse_flag(&String::from("true")), Some(true));
    assert_eq!(parse_flag(&String::from("false")), Some(false));
    assert_eq!(parse_flag(&String::from("")), None);
    assert_eq!(parse_flag(&String::from("truee")), None);
}

#[test]
fn all_header_values_agrees_with_the_http_crate() {
    let samples = [
        "", "plain", "with space", "tab\there", "line\nbreak", "carriage\rreturn", "nul\0",
        "\u{7f}", "\u{1f}", "é", "\u{80}", "日本語", "~", " ",
    ];
    for text in samples {
        assert_eq!(
            all_header_values(&vec![String::from(text)]),
            axum::http::HeaderValue::from_str(text).is_ok(),
            "{:?}",
            text
        );
    }
    assert!(all_header_values(&Vec::new()));
    assert!(all_header_values(&vec![String::from("a"), String::from("b")]));
    assert!(!all_header_values(&vec![String::from("a"), String::from("\n")]));
    assert!(!all_header_values(&vec![String::from("\n"), String::from("a")]));
}

#[test]
fn config_error_messages() {
    assert_eq!(ConfigError::Missing(Setting::BindAddress).message(), "BIND_ADDRESS not set");
    assert_eq!(ConfigError::Missing(Setting::RequestBufferSize).message(), "REQUEST_BUFFER_SIZE not set");
    assert_eq!(ConfigError::Invalid(Setting::BindAddress).message(), "BIND_ADDRESS not a SocketAddr");
    assert_eq!(ConfigError::Invalid(Setting::ServerUrl).message(), "Failed to parse SERVER_URL");
    assert_eq!(ConfigError::ServerUrlWithoutHost.message(), "SERVER_URL did not contain a host");
    assert_eq!(ConfigError::Invalid(Setting::MaxDbConnections).message(), "MAX_DB_CONNECTIONS not a u32");
    assert_eq!(
        ConfigError::Invalid(Setting::SecureProxy).message(),
        "SECURE_PROXY must either be 'true' or 'false'"
    );
    assert_eq!(
        ConfigError::Invalid(Setting::CorsOrigins).message(),
        "Failed to parse HeaderValue for CORS_ORIGINS"
    );
    assert_eq!(
        ConfigError::Invalid(Setting::GlobalLimitRequests).message(),
        "GLOBAL_LIMIT_REQUESTS not a u64"
    );
    assert_eq!(
        ConfigError::Invalid(Setting::GlobalLimitPerSeconds).message(),
        "GLOBAL_LIMIT_PER_SECONDS not a u64"
    );
    assert_eq!(
        ConfigError::Invalid(Setting::RequestBufferSize).message(),
        "REQUEST_BUFFER_SIZE not a usize"
    );
    assert_eq!(ConfigError::Invalid(Setting::DatabaseUrl).message(), "DATABASE_URL not valid");
}

#[test]
fn from_env_refuses_a_bind_address_that_does_not_parse() {
    assert_eq!(
        StartOptions::from_env(&with("BIND_ADDRESS", "not an address"), None),
        Err(ConfigError::Invalid(Setting::BindAddress))
    );
    assert_eq!(
        StartOptions::from_env(&with("BIND_ADDRESS", ""), None),
        Err(ConfigError::Invalid(Setting::BindAddress))
    );
    let mut broken = with("SERVER_URL", "not a url");
    broken.retain(|(k, _)| k != "DATABASE_URL");
    assert_eq!(
        StartOptions::from_env(&broken, None),
        Err(ConfigError::Invalid(Setting::BindAddress))
    );
    assert_eq!(
        StartOptions::from_env(&without("BIND_ADDRESS"), None),
        Err(ConfigError::Missing(Setting::BindAddress))
    );
    assert_eq!(
        StartOptions::from_env(&without("BIND_ADDRESS"), bind()),
        Err(ConfigError::Missing(Setting::BindAddress))
    );
}

#[test]
fn from_env_keeps_the_parsed_bind_address() {
    let v6 = SocketAddress::V6 {
        segments: [0, 0, 0, 0, 0, 0, 0, 1],
        port: 8080,
        flowinfo: 0,
        scope_id: 3,
    };
    let options = StartOptions::from_env(&with("BIND_ADDRESS", "[::1%3]:8080"), Some(v6)).unwrap();
    assert_eq!(options.bind_address, v6);
    let options = StartOptions::from_env(&complete(), bind()).unwrap();
    assert_eq!(options.bind_address, address());
}

#[test]
fn from_parsed_decides_by_the_outcomes_it_is_given() {
    let vars = complete();
    assert!(StartOptions::from_parsed(&vars, bind(), Some(true)).is_ok());
    assert_eq!(
        StartOptions::from_parsed(&vars, bind(), Some(false)),
        Err(ConfigError::ServerUrlWithoutHost)
    );
    assert_eq!(
        StartOptions::from_parsed(&vars, bind(), None),
        Err(ConfigError::Invalid(Setting::ServerUrl))
    );
    assert_eq!(
        StartOptions::from_parsed(&vars, None, None),
        Err(ConfigError::Invalid(Setting::BindAddress))
    );
    assert_eq!(
        StartOptions::from_parsed(&without("SERVER_URL"), bind(), Some(true)),
        Err(ConfigError::Missing(Setting::ServerUrl))
    );
    assert_eq!(
        StartOptions::from_parsed(&with("SECURE_PROXY", "maybe"), bind(), Some(true)),
        Err(ConfigError::Invalid(Setting::SecureProxy))
    );
    assert_eq!(
        StartOptions::from_parsed(&vars, bind(), Some(true)),
        StartOptions::from_env(&vars, bind())
    );
}

#[test]
fn parse_server_url_reports_what_the_parser_found() {
    assert_eq!(parse_server_url(&complete()), Some(true));
    assert_eq!(parse_server_url(&with("SERVER_URL", "data:text/plain,Stuff")), Some(false));
    assert_eq!(parse_server_url(&with("SERVER_URL", "no url")), None);
    assert_eq!(parse_server_url(&without("SERVER_URL")), None);
}
