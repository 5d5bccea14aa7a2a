//! Start-up options: the immutable configuration snapshot that is read once
//! from the process environment before any state exists.

use crate::text::{bounded_value, parse_unsigned, split_commas, split_on, texts_of};
use vstd::prelude::*;
use vstd::string::*;

verus! {

/// One of the ten settings that make up the start-up options, in the order
/// in which they are read.
#[derive(Debug, Clone, Copy, PartialEq, Eq, Structural)]
pub enum Setting {
    BindAddress,
    ServerUrl,
    DatabaseUrl,
    MaxDbConnections,
    MemcachedUrl,
    SecureProxy,
    CorsOrigins,
    GlobalLimitRequests,
    GlobalLimitPerSeconds,
    RequestBufferSize,
}

impl Setting {
    /// The name of the environment variable that carries the setting.
    pub open spec fn name_spec(self) -> Seq<char> {
        match self {
            Setting::BindAddress => "BIND_ADDRESS"@,
            Setting::ServerUrl => "SERVER_URL"@,
            Setting::DatabaseUrl => "DATABASE_URL"@,
            Setting::MaxDbConnections => "MAX_DB_CONNECTIONS"@,
            Setting::MemcachedUrl => "MEMCACHED_URL"@,
            Setting::SecureProxy => "SECURE_PROXY"@,
            Setting::CorsOrigins => "CORS_ORIGINS"@,
            Setting::GlobalLimitRequests => "GLOBAL_LIMIT_REQUESTS"@,
            Setting::GlobalLimitPerSeconds => "GLOBAL_LIMIT_PER_SECONDS"@,
            Setting::RequestBufferSize => "REQUEST_BUFFER_SIZE"@,
        }
    }

    /// The name of the environment variable that carries the setting.
    pub fn name(self) -> (name: &'static str)
        ensures
            name@ == self.name_spec(),
    {
        match self {
            Setting::BindAddress => "BIND_ADDRESS",
            Setting::ServerUrl => "SERVER_URL",
            Setting::DatabaseUrl => "DATABASE_URL",
            Setting::MaxDbConnections => "MAX_DB_CONNECTIONS",
            Setting::MemcachedUrl => "MEMCACHED_URL",
            Setting::SecureProxy => "SECURE_PROXY",
            Setting::CorsOrigins => "CORS_ORIGINS",
            Setting::GlobalLimitRequests => "GLOBAL_LIMIT_REQUESTS",
            Setting::GlobalLimitPerSeconds => "GLOBAL_LIMIT_PER_SECONDS",
            Setting::RequestBufferSize => "REQUEST_BUFFER_SIZE",
        }
    }
}

/// Why the environment does not yield start-up options.
#[derive(Debug, Clone, Copy, PartialEq, Eq, Structural)]
pub enum ConfigError {
    /// The variable of the setting is not in the environment.
    Missing(Setting),
    /// The variable is there, but its text is not a value of the setting.
    Invalid(Setting),
    /// The public base URL parses, but names no host.
    ServerUrlWithoutHost,
}

impl ConfigError {
    /// What the error says to the operator of the service.
    pub open spec fn message_spec(self) -> Seq<char> {
        match self {
            ConfigError::Missing(setting) => setting.name_spec() + " not set"@,
            ConfigError::Invalid(Setting::BindAddress) => "BIND_ADDRESS not a SocketAddr"@,
            ConfigError::Invalid(Setting::ServerUrl) => "Failed to parse SERVER_URL"@,
            ConfigError::Invalid(Setting::MaxDbConnections) => "MAX_DB_CONNECTIONS not a u32"@,
            ConfigError::Invalid(Setting::SecureProxy) => "SECURE_PROXY must either be 'true' or 'false'"@,
            ConfigError::Invalid(Setting::CorsOrigins) => "Failed to parse HeaderValue for CORS_ORIGINS"@,
            ConfigError::Invalid(Setting::GlobalLimitRequests) => "GLOBAL_LIMIT_REQUESTS not a u64"@,
            ConfigError::Invalid(Setting::GlobalLimitPerSeconds) => "GLOBAL_LIMIT_PER_SECONDS not a u64"@,
            ConfigError::Invalid(Setting::RequestBufferSize) => "REQUEST_BUFFER_SIZE not a usize"@,
            ConfigError::Invalid(setting) => setting.name_spec() + " not valid"@,
            ConfigError::ServerUrlWithoutHost => "SERVER_URL did not contain a host"@,
        }
    }

    /// What the error says to the operator of the service.
    pub fn message(&self) -> (text: String)
        ensures
            text@ == self.message_spec(),
    {
        match self {
            ConfigError::Missing(setting) => {
                let mut text = String::from_str(setting.name());
                text.append(" not set");
                text
            },
            ConfigError::Invalid(Setting::BindAddress) => String::from_str(
                "BIND_ADDRESS not a SocketAddr",
            ),
            ConfigError::Invalid(Setting::ServerUrl) => String::from_str(
                "Failed to parse SERVER_URL",
            ),
            ConfigError::Invalid(Setting::MaxDbConnections) => String::from_str(
                "MAX_DB_CONNECTIONS not a u32",
            ),
            ConfigError::Invalid(Setting::SecureProxy) => String::from_str(
                "SECURE_PROXY must either be 'true' or 'false'",
            ),
            ConfigError::Invalid(Setting::CorsOrigins) => String::from_str(
                "Failed to parse HeaderValue for CORS_ORIGINS",
            ),
            ConfigError::Invalid(Setting::GlobalLimitRequests) => String::from_str(
                "GLOBAL_LIMIT_REQUESTS not a u64",
            ),
            ConfigError::Invalid(Setting::GlobalLimitPerSeconds) => String::from_str(
                "GLOBAL_LIMIT_PER_SECONDS not a u64",
            ),
            ConfigError::Invalid(Setting::RequestBufferSize) => String::from_str(
                "REQUEST_BUFFER_SIZE not a usize",
            ),
            ConfigError::Invalid(setting) => {
                let mut text = String::from_str(setting.name());
                text.append(" not valid");
                text
            },
            ConfigError::ServerUrlWithoutHost => String::from_str(
                "SERVER_URL did not contain a host",
            ),
        }
    }
}

/// The value of the variable `name` in an environment given as pairs of
/// name and value: that of the first pair with this name.
pub open spec fn lookup(vars: Seq<(String, String)>, name: Seq<char>) -> Option<Seq<char>>
    decreases vars.len(),
{
    if vars.len() == 0 {
        None
    } else if vars[0].0@ == name {
        Some(vars[0].1@)
    } else {
        lookup(vars.drop_first(), name)
    }
}

/// Finds the value of the variable `name`.
pub fn find_var<'a>(vars: &'a Vec<(String, String)>, name: &str) -> (found: Option<&'a String>)
    ensures
        found matches Some(value) ==> lookup(vars@, name@) == Some(value@),
        found is None ==> lookup(vars@, name@) is None,
{
    let wanted = String::from_str(name);
    let mut i: usize = 0;
    assert(vars@.subrange(0, vars@.len() as int) =~= vars@);
    while i < vars.len()
        invariant
            i <= vars.len(),
            wanted@ == name@,
            lookup(vars@, name@) == lookup(vars@.subrange(i as int, vars@.len() as int), name@),
        decreases vars.len() - i,
    {
        let ghost rest = vars@.subrange(i as int, vars@.len() as int);
        assert(rest[0] == vars@[i as int]);
        assert(rest.drop_first() =~= vars@.subrange(i + 1, vars@.len() as int));
        if vars[i].0 == wanted {
            return Some(&vars[i].1);
        }
        i = i + 1;
    }
    None
}

/// What `url::Url::parse` makes of a text: `None` where it refuses the text,
/// else whether the URL it builds has a host.
pub uninterp spec fn url_host_presence(text: Seq<char>) -> Option<bool>;

/// `url::ParseError`, the reason for which `url::Url::parse` refuses a
/// text. Nothing of it is read.
#[verifier::external_type_specification]
#[verifier::external_body]
pub struct ExUrlParseError(url::ParseError);

/// Parses `text` with `url::Url::parse` and asks the URL `has_host`.
///
/// Trusted: the outcome is a function of the text alone, which the contract
/// records under the name `url_host_presence`. Nothing is claimed about which
/// texts parse or which URLs have a host.
#[verifier::external_body]
fn parse_url_host(text: &str) -> (res: Result<bool, url::ParseError>)
    ensures
        res matches Ok(has_host) ==> url_host_presence(text@) == Some(has_host),
        res is Err ==> url_host_presence(text@) is None,
{
    match url::Url::parse(text) {
        Ok(url) => Ok(url.has_host()),
        Err(err) => Err(err),
    }
}

/// Whether `c` may stand in the value of an HTTP header: a tab, or anything
/// from the space upwards but the delete character.
pub open spec fn is_header_char(c: char) -> bool {
    c == '\t' || (' ' <= c && c != '\u{7f}')
}

/// Whether `s` can be sent as the value of an HTTP header.
pub open spec fn is_header_text(s: Seq<char>) -> bool {
    forall|i: int| 0 <= i < s.len() ==> is_header_char(#[trigger] s[i])
}

/// Whether every text of a list can be sent as the value of an HTTP header.
pub open spec fn all_header_texts(list: Seq<Seq<char>>) -> bool {
    forall|i: int| 0 <= i < list.len() ==> is_header_text(#[trigger] list[i])
}

/// Asks `http::HeaderValue::from_str` whether it accepts `text`.
///
/// Trusted: that function scans the bytes of the text and refuses it exactly
/// when one of them is below 32 and not a tab, or is 127. Bytes of 128 and
/// above pass, so every character outside ASCII passes.
#[verifier::external_body]
fn is_header_value(text: &str) -> (ok: bool)
    ensures
        ok == is_header_text(text@),
{
    axum::http::HeaderValue::from_str(text).is_ok()
}

/// The flag that a text writes: `true` or `false`, spelled exactly so.
pub open spec fn flag_value(s: Seq<char>) -> Option<bool> {
    if s == "true"@ {
        Some(true)
    } else if s == "false"@ {
        Some(false)
    } else {
        None
    }
}

/// Reads a flag spelled `true` or `false`.
pub fn parse_flag(text: &String) -> (flag: Option<bool>)
    ensures
        flag == flag_value(text@),
{
    if *text == String::from_str("true") {
        Some(true)
    } else if *text == String::from_str("false") {
        Some(false)
    } else {
        None
    }
}

/// A socket address as plain values: an IP address of either version with
/// its port, and for version 6 the flow information and the scope.
#[derive(Debug, Clone, Copy, PartialEq, Eq)]
pub enum SocketAddress {
    V4 { octets: [u8; 4], port: u16 },
    V6 { segments: [u16; 8], port: u16, flowinfo: u32, scope_id: u32 },
}

/// The immutable configuration snapshot of the service.
///
/// Texts are kept as they stood in the environment.
#[derive(Debug, PartialEq, Eq)]
pub struct StartOptions {
    pub bind_address: SocketAddress,
    pub server_url: String,
    pub database_url: String,
    pub max_db_connections: u32,
    pub memcached_url: String,
    pub secure_proxy: bool,
    pub cors_origins: Vec<String>,
    pub global_limit_requests: u64,
    pub global_limit_per_seconds: u64,
    pub request_buffer_size: usize,
}

/// What a `StartOptions` holds, as mathematical values.
pub ghost struct StartOptionsView {
    pub bind_address: SocketAddress,
    pub server_url: Seq<char>,
    pub database_url: Seq<char>,
    pub max_db_connections: u32,
    pub memcached_url: Seq<char>,
    pub secure_proxy: bool,
    pub cors_origins: Seq<Seq<char>>,
    pub global_limit_requests: u64,
    pub global_limit_per_seconds: u64,
    pub request_buffer_size: usize,
}

impl View for StartOptions {
    type V = StartOptionsView;

    open spec fn view(&self) -> StartOptionsView {
        StartOptionsView {
            bind_address: self.bind_address,
            server_url: self.server_url@,
            database_url: self.database_url@,
            max_db_connections: self.max_db_connections,
            memcached_url: self.memcached_url@,
            secure_proxy: self.secure_proxy,
            cors_origins: texts_of(self.cors_origins@),
            global_limit_requests: self.global_limit_requests,
            global_limit_per_seconds: self.global_limit_per_seconds,
            request_buffer_size: self.request_buffer_size,
        }
    }
}

impl StartOptionsView {
    /// What holds of options that were read from an environment: the public
    /// base URL parses and names a host, and every CORS origin can be sent as
    /// a header value.
    pub open spec fn wf(self) -> bool {
        &&& url_host_presence(self.server_url) == Some(true)
        &&& all_header_texts(self.cors_origins)
    }
}

/// The failure, if any, of a setting that is taken as text: its variable
/// must be there.
pub open spec fn text_failure(vars: Seq<(String, String)>, setting: Setting) -> Option<
    ConfigError,
> {
    if lookup(vars, setting.name_spec()) is None {
        Some(ConfigError::Missing(setting))
    } else {
        None
    }
}

/// The failure, if any, of the bind address: its variable must be there,
/// and its text must parse as a socket address. `parsed` is what that text
/// parses to, and `None` where it does not parse.
pub open spec fn bind_address_failure(
    vars: Seq<(String, String)>,
    parsed: Option<SocketAddress>,
) -> Option<ConfigError> {
    if lookup(vars, Setting::BindAddress.name_spec()) is None {
        Some(ConfigError::Missing(Setting::BindAddress))
    } else if parsed is None {
        Some(ConfigError::Invalid(Setting::BindAddress))
    } else {
        None
    }
}

/// The failure, if any, of the public base URL: its variable must be there,
/// parse as a URL, and name a host. `outcome` is what the URL parser makes
/// of its text: `None` where it refuses the text, else whether the URL has
/// a host.
pub open spec fn server_url_failure(vars: Seq<(String, String)>, outcome: Option<bool>) -> Option<
    ConfigError,
> {
    match lookup(vars, Setting::ServerUrl.name_spec()) {
        None => Some(ConfigError::Missing(Setting::ServerUrl)),
        Some(text) => match outcome {
            None => Some(ConfigError::Invalid(Setting::ServerUrl)),
            Some(false) => Some(ConfigError::ServerUrlWithoutHost),
            Some(true) => None,
        },
    }
}

/// What the URL parser makes of the text of the public base URL in an
/// environment; `None` also where the variable is not set.
pub open spec fn server_url_outcome(vars: Seq<(String, String)>) -> Option<bool> {
    match lookup(vars, Setting::ServerUrl.name_spec()) {
        None => None,
        Some(text) => url_host_presence(text),
    }
}

/// The failure, if any, of a numeric setting: its variable must be there and
/// write a number of at most `max`.
pub open spec fn number_failure(vars: Seq<(String, String)>, setting: Setting, max: nat) -> Option<
    ConfigError,
> {
    match lookup(vars, setting.name_spec()) {
        None => Some(ConfigError::Missing(setting)),
        Some(text) => if bounded_value(text, max) is None {
            Some(ConfigError::Invalid(setting))
        } else {
            None
        },
    }
}

/// The failure, if any, of the proxy flag.
pub open spec fn flag_failure(vars: Seq<(String, String)>) -> Option<ConfigError> {
    match lookup(vars, Setting::SecureProxy.name_spec()) {
        None => Some(ConfigError::Missing(Setting::SecureProxy)),
        Some(text) => if flag_value(text) is None {
            Some(ConfigError::Invalid(Setting::SecureProxy))
        } else {
            None
        },
    }
}

/// The failure, if any, of the list of CORS origins: its variable must be
/// there, and every piece between its commas must be fit for a header.
pub open spec fn origins_failure(vars: Seq<(String, String)>) -> Option<ConfigError> {
    match lookup(vars, Setting::CorsOrigins.name_spec()) {
        None => Some(ConfigError::Missing(Setting::CorsOrigins)),
        Some(text) => if !all_header_texts(split_on(text, ',')) {
            Some(ConfigError::Invalid(Setting::CorsOrigins))
        } else {
            None
        },
    }
}

/// The failures of the ten settings, in the order in which they are read,
/// given what the bind address parses to and what the URL parser makes of
/// the public base URL.
pub open spec fn failures(
    vars: Seq<(String, String)>,
    bind_address: Option<SocketAddress>,
    server_url: Option<bool>,
) -> Seq<Option<ConfigError>> {
    seq![
        bind_address_failure(vars, bind_address),
        server_url_failure(vars, server_url),
        text_failure(vars, Setting::DatabaseUrl),
        number_failure(vars, Setting::MaxDbConnections, u32::MAX as nat),
        text_failure(vars, Setting::MemcachedUrl),
        flag_failure(vars),
        origins_failure(vars),
        number_failure(vars, Setting::GlobalLimitRequests, u64::MAX as nat),
        number_failure(vars, Setting::GlobalLimitPerSeconds, u64::MAX as nat),
        number_failure(vars, Setting::RequestBufferSize, usize::MAX as nat),
    ]
}

/// The first entry of `list` that holds a failure.
pub open spec fn first_failure(list: Seq<Option<ConfigError>>) -> Option<ConfigError>
    decreases list.len(),
{
    if list.len() == 0 {
        None
    } else if list[0] is Some {
        list[0]
    } else {
        first_failure(list.drop_first())
    }
}

/// The text of a setting in the environment.
pub open spec fn text_of(vars: Seq<(String, String)>, setting: Setting) -> Seq<char> {
    lookup(vars, setting.name_spec())->0
}

/// The number that the text of a setting writes.
pub open spec fn number_of(vars: Seq<(String, String)>, setting: Setting, max: nat) -> nat {
    bounded_value(text_of(vars, setting), max)->0
}

/// The options that an environment without failures yields, given what the
/// bind address parses to.
pub open spec fn options_of(
    vars: Seq<(String, String)>,
    bind_address: Option<SocketAddress>,
) -> StartOptionsView {
    StartOptionsView {
        bind_address: bind_address->0,
        server_url: text_of(vars, Setting::ServerUrl),
        database_url: text_of(vars, Setting::DatabaseUrl),
        max_db_connections: number_of(vars, Setting::MaxDbConnections, u32::MAX as nat) as u32,
        memcached_url: text_of(vars, Setting::MemcachedUrl),
        secure_proxy: flag_value(text_of(vars, Setting::SecureProxy))->0,
        cors_origins: split_on(text_of(vars, Setting::CorsOrigins), ','),
        global_limit_requests: number_of(vars, Setting::GlobalLimitRequests, u64::MAX as nat) as u64,
        global_limit_per_seconds: number_of(
            vars,
            Setting::GlobalLimitPerSeconds,
            u64::MAX as nat,
        ) as u64,
        request_buffer_size: number_of(
            vars,
            Setting::RequestBufferSize,
            usize::MAX as nat,
        ) as usize,
    }
}

/// Reads a setting that is taken as text.
fn read_text(vars: &Vec<(String, String)>, setting: Setting) -> (res: Result<String, ConfigError>)
    ensures
        text_failure(vars@, setting) matches Some(e) ==> res == Err::<String, ConfigError>(e),
        text_failure(vars@, setting) is None ==> (res matches Ok(text) && text@ == text_of(
            vars@,
            setting,
        )),
{
    match find_var(vars, setting.name()) {
        None => Err(ConfigError::Missing(setting)),
        Some(text) => Ok(text.clone()),
    }
}

/// Reads a numeric setting of at most `max`.
fn read_number(vars: &Vec<(String, String)>, setting: Setting, max: u64) -> (res: Result<
    u64,
    ConfigError,
>)
    ensures
        number_failure(vars@, setting, max as nat) matches Some(e) ==> res == Err::<
            u64,
            ConfigError,
        >(e),
        number_failure(vars@, setting, max as nat) is None ==> (res matches Ok(n) && n
            == number_of(vars@, setting, max as nat) && n <= max),
{
    match find_var(vars, setting.name()) {
        None => Err(ConfigError::Missing(setting)),
        Some(text) => match parse_unsigned(text.as_str(), max) {
            None => Err(ConfigError::Invalid(setting)),
            Some(n) => Ok(n),
        },
    }
}

/// Reads the bind address, given what its text parses to.
fn read_bind_address(vars: &Vec<(String, String)>, parsed: Option<SocketAddress>) -> (res: Result<
    SocketAddress,
    ConfigError,
>)
    ensures
        bind_address_failure(vars@, parsed) matches Some(e) ==> res == Err::<
            SocketAddress,
            ConfigError,
        >(e),
        bind_address_failure(vars@, parsed) is None ==> res == Ok::<SocketAddress, ConfigError>(
            parsed->0,
        ),
{
    match find_var(vars, Setting::BindAddress.name()) {
        None => Err(ConfigError::Missing(Setting::BindAddress)),
        Some(_) => match parsed {
            None => Err(ConfigError::Invalid(Setting::BindAddress)),
            Some(address) => Ok(address),
        },
    }
}

/// Reads the public base URL, given what the URL parser makes of its text.
fn read_server_url(vars: &Vec<(String, String)>, outcome: Option<bool>) -> (res: Result<
    String,
    ConfigError,
>)
    ensures
        server_url_failure(vars@, outcome) matches Some(e) ==> res == Err::<String, ConfigError>(
            e,
        ),
        server_url_failure(vars@, outcome) is None ==> (res matches Ok(text) && text@ == text_of(
            vars@,
            Setting::ServerUrl,
        )),
{
    match find_var(vars, Setting::ServerUrl.name()) {
        None => Err(ConfigError::Missing(Setting::ServerUrl)),
        Some(text) => match outcome {
            None => Err(ConfigError::Invalid(Setting::ServerUrl)),
            Some(false) => Err(ConfigError::ServerUrlWithoutHost),
            Some(true) => Ok(text.clone()),
        },
    }
}

/// Asks the URL parser about the text of the public base URL, if the
/// variable is set.
pub fn parse_server_url(vars: &Vec<(String, String)>) -> (outcome: Option<bool>)
    ensures
        outcome == server_url_outcome(vars@),
{
    match find_var(vars, Setting::ServerUrl.name()) {
        None => None,
        Some(text) => match parse_url_host(text.as_str()) {
            Err(_) => None,
            Ok(has_host) => Some(has_host),
        },
    }
}

/// Reads the proxy flag.
fn read_flag(vars: &Vec<(String, String)>) -> (res: Result<bool, ConfigError>)
    ensures
        flag_failure(vars@) matches Some(e) ==> res == Err::<bool, ConfigError>(e),
        flag_failure(vars@) is None ==> (res matches Ok(flag) && Some(flag) == flag_value(
            text_of(vars@, Setting::SecureProxy),
        )),
{
    match find_var(vars, Setting::SecureProxy.name()) {
        None => Err(ConfigError::Missing(Setting::SecureProxy)),
        Some(text) => match parse_flag(text) {
            None => Err(ConfigError::Invalid(Setting::SecureProxy)),
            Some(flag) => Ok(flag),
        },
    }
}

/// Whether every string of `list` can be sent as the value of an HTTP header.
pub fn all_header_values(list: &Vec<String>) -> (ok: bool)
    ensures
        ok == all_header_texts(texts_of(list@)),
{
    let mut i: usize = 0;
    while i < list.len()
        invariant
            i <= list.len(),
            forall|k: int| 0 <= k < i ==> is_header_text(#[trigger] texts_of(list@)[k]),
        decreases list.len() - i,
    {
        if !is_header_value(list[i].as_str()) {
            assert(!is_header_text(texts_of(list@)[i as int]));
            return false;
        }
        i = i + 1;
    }
    true
}

/// Reads the list of CORS origins.
fn read_origins(vars: &Vec<(String, String)>) -> (res: Result<Vec<String>, ConfigError>)
    ensures
        origins_failure(vars@) matches Some(e) ==> res == Err::<Vec<String>, ConfigError>(e),
        origins_failure(vars@) is None ==> (res matches Ok(list) && texts_of(list@) == split_on(
            text_of(vars@, Setting::CorsOrigins),
            ',',
        ) && all_header_texts(texts_of(list@))),
{
    match find_var(vars, Setting::CorsOrigins.name()) {
        None => Err(ConfigError::Missing(Setting::CorsOrigins)),
        Some(text) => {
            let list = split_commas(text.as_str());
            if all_header_values(&list) {
                Ok(list)
            } else {
                Err(ConfigError::Invalid(Setting::CorsOrigins))
            }
        },
    }
}

impl StartOptions {
    /// Builds the start-up options from the variables of the environment,
    /// given as pairs of name and value.
    ///
    /// `bind_address` is what the text of the bind address parses to as a
    /// socket address, and `None` where that text is no socket address.
    ///
    /// The settings are read in a fixed order, and the first one that is
    /// missing or malformed decides the error.
    pub fn from_env(vars: &Vec<(String, String)>, bind_address: Option<SocketAddress>) -> (res:
        Result<StartOptions, ConfigError>)
        ensures
            first_failure(
                failures(vars@, bind_address, server_url_outcome(vars@)),
            ) matches Some(e) ==> res == Err::<StartOptions, ConfigError>(e),
            first_failure(failures(vars@, bind_address, server_url_outcome(vars@))) is None ==> (
            res matches Ok(options) && options@ == options_of(vars@, bind_address)
                && options@.wf()),
    {
        let server_url = parse_server_url(vars);
        proof {
            reveal_with_fuel(first_failure, 11);
        }
        StartOptions::from_parsed(vars, bind_address, server_url)
    }

    /// Builds the start-up options from the variables of the environment,
    /// given what the bind address parses to and what the URL parser makes of
    /// the public base URL (`None` where it refuses the text, else whether
    /// the URL has a host).
    ///
    /// The settings are read in a fixed order, and the first one that is
    /// missing or malformed decides the error.
    pub fn from_parsed(
        vars: &Vec<(String, String)>,
        bind_address: Option<SocketAddress>,
        server_url: Option<bool>,
    ) -> (res: Result<StartOptions, ConfigError>)
        ensures
            first_failure(failures(vars@, bind_address, server_url)) matches Some(e) ==> res
                == Err::<StartOptions, ConfigError>(e),
            first_failure(failures(vars@, bind_address, server_url)) is None ==> (
            res matches Ok(options) && options@ == options_of(vars@, bind_address)
                && all_header_texts(options@.cors_origins) && server_url == Some(true)),
    {
        proof {
            reveal_with_fuel(first_failure, 11);
        }
        let bind_address = match read_bind_address(vars, bind_address) {
            Ok(v) => v,
            Err(e) => {
                return Err(e);
            },
        };
        let server_url = match read_server_url(vars, server_url) {
            Ok(v) => v,
            Err(e) => {
                return Err(e);
            },
        };
        let database_url = match read_text(vars, Setting::DatabaseUrl) {
            Ok(v) => v,
            Err(e) => {
                return Err(e);
            },
        };
        let max_db_connections = match read_number(
            vars,
            Setting::MaxDbConnections,
            u32::MAX as u64,
        ) {
            Ok(v) => v as u32,
            Err(e) => {
                return Err(e);
            },
        };
        let memcached_url = match read_text(vars, Setting::MemcachedUrl) {
            Ok(v) => v,
            Err(e) => {
                return Err(e);
            },
        };
        let secure_proxy = match read_flag(vars) {
            Ok(v) => v,
            Err(e) => {
                return Err(e);
            },
        };
        let cors_origins = match read_origins(vars) {
            Ok(v) => v,
            Err(e) => {
                return Err(e);
            },
        };
        let global_limit_requests = match read_number(
            vars,
            Setting::GlobalLimitRequests,
            u64::MAX,
        ) {
            Ok(v) => v,
            Err(e) => {
                return Err(e);
            },
        };
        let global_limit_per_seconds = match read_number(
            vars,
            Setting::GlobalLimitPerSeconds,
            u64::MAX,
        ) {
            Ok(v) => v,
            Err(e) => {
                return Err(e);
            },
        };
        let request_buffer_size = match read_number(
            vars,
            Setting::RequestBufferSize,
            usize::MAX as u64,
        ) {
            Ok(v) => v as usize,
            Err(e) => {
                return Err(e);
            },
        };
        Ok(
            StartOptions {
                bind_address,
                server_url,
                database_url,
                max_db_connections,
                memcached_url,
                secure_proxy,
                cors_origins,
                global_limit_requests,
                global_limit_per_seconds,
                request_buffer_size,
            },
        )
    }
}

impl Clone for StartOptions {
    fn clone(&self) -> (copy: Self)
        ensures
            copy@ == self@,
    {
        let mut origins: Vec<String> = Vec::new();
        let mut i: usize = 0;
        while i < self.cors_origins.len()
            invariant
                i <= self.cors_origins.len(),
                origins@.len() == i,
                forall|k: int| 0 <= k < i ==> origins@[k]@ == self.cors_origins@[k]@,
            decreases self.cors_origins.len() - i,
        {
            origins.push(self.cors_origins[i].clone());
            i = i + 1;
        }
        assert(texts_of(origins@) =~= texts_of(self.cors_origins@));
        StartOptions {
            bind_address: self.bind_address,
            server_url: self.server_url.clone(),
            database_url: self.database_url.clone(),
            max_db_connections: self.max_db_connections,
            memcached_url: self.memcached_url.clone(),
            secure_proxy: self.secure_proxy,
            cors_origins: origins,
            global_limit_requests: self.global_limit_requests,
            global_limit_per_seconds: self.global_limit_per_seconds,
            request_buffer_size: self.request_buffer_size,
        }
    }
}

} // verus!
