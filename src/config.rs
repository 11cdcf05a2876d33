//! Settings of the service connection and of the dashboard.
use crate::text::{chars_of, parse_unsigned, parse_unsigned_exec};
use vstd::prelude::*;
use vstd::string::*;

verus! {

/// A commented example of the configuration file.
pub const EXAMPLE_CONFIG: &'static str = "[surge]
# HTTP API 配置
http_api_host = \"127.0.0.1\"
http_api_port = 6171
http_api_key = \"your-secret-key\"  # 必填

# surge-cli 路径（可选，默认自动查找）
# cli_path = \"/Applications/Surge.app/Contents/Applications/surge-cli\"

[ui]
# UI 刷新间隔（秒）
refresh_interval = 1

# 最大请求历史条数
max_requests = 100
";

/// Default HTTP API port.
pub const DEFAULT_HTTP_API_PORT: u16 = 6171;

/// Default refresh interval, in seconds.
pub const DEFAULT_REFRESH_INTERVAL: u64 = 1;

/// Default number of requests kept.
pub const DEFAULT_MAX_REQUESTS: usize = 100;

pub open spec fn default_host_text() -> Seq<char> {
    "127.0.0.1"@
}

pub open spec fn default_cli_path_text() -> Seq<char> {
    "/Applications/Surge.app/Contents/Applications/surge-cli"@
}

/// Settings of the connection to the service.
#[derive(Debug, Clone)]
pub struct SurgeConfig {
    pub http_api_host: String,
    pub http_api_port: u16,
    pub http_api_key: String,
    pub cli_path: Option<String>,
}

/// Settings of the dashboard.
#[derive(Debug, Clone)]
pub struct UiConfig {
    /// Seconds between refreshes
    pub refresh_interval: u64,
    /// Largest number of requests kept
    pub max_requests: usize,
}

/// The whole configuration.
#[derive(Debug, Clone)]
pub struct Config {
    pub surge: SurgeConfig,
    pub ui: UiConfig,
}

pub fn default_http_api_host() -> (r: String)
    ensures
        r@ == default_host_text(),
{
    String::from_str("127.0.0.1")
}

pub fn default_http_api_port() -> (r: u16)
    ensures
        r == DEFAULT_HTTP_API_PORT,
{
    DEFAULT_HTTP_API_PORT
}

pub fn default_cli_path() -> (r: Option<String>)
    ensures
        r matches Some(p) && p@ == default_cli_path_text(),
{
    Some(String::from_str("/Applications/Surge.app/Contents/Applications/surge-cli"))
}

pub fn default_refresh_interval() -> (r: u64)
    ensures
        r == DEFAULT_REFRESH_INTERVAL,
{
    DEFAULT_REFRESH_INTERVAL
}

pub fn default_max_requests() -> (r: usize)
    ensures
        r == DEFAULT_MAX_REQUESTS,
{
    DEFAULT_MAX_REQUESTS
}

impl Config {
    /// The built-in defaults; the API key is empty.
    pub open spec fn is_default(self) -> bool {
        &&& self.surge.http_api_host@ == default_host_text()
        &&& self.surge.http_api_port == DEFAULT_HTTP_API_PORT
        &&& self.surge.http_api_key@.len() == 0
        &&& self.surge.cli_path matches Some(p) && p@ == default_cli_path_text()
        &&& self.ui.refresh_interval == DEFAULT_REFRESH_INTERVAL
        &&& self.ui.max_requests == DEFAULT_MAX_REQUESTS
    }

    /// A commented example configuration file.
    pub fn example() -> (r: String)
        ensures
            r@ == EXAMPLE_CONFIG@,
    {
        String::from_str(EXAMPLE_CONFIG)
    }

    /// Lays values from the environment over the configuration: a host, key
    /// or CLI path that is set replaces the configured one; a port replaces it
    /// only when it parses as a port number.
    pub fn apply_env(
        &mut self,
        host: Option<String>,
        port: Option<String>,
        key: Option<String>,
        cli_path: Option<String>,
    )
        ensures
            final(self).surge.http_api_host == (match host {
                Some(h) => h,
                None => old(self).surge.http_api_host,
            }),
            final(self).surge.http_api_port == (match port {
                Some(p) => match parse_unsigned(p@, 65535) {
                    Some(v) => v as u16,
                    None => old(self).surge.http_api_port,
                },
                None => old(self).surge.http_api_port,
            }),
            final(self).surge.http_api_key == (match key {
                Some(k) => k,
                None => old(self).surge.http_api_key,
            }),
            final(self).surge.cli_path == (match cli_path {
                Some(c) => Some(c),
                None => old(self).surge.cli_path,
            }),
            final(self).ui == old(self).ui,
    {
        if let Some(h) = host {
            self.surge.http_api_host = h;
        }
        if let Some(p) = port {
            let v = chars_of(p.as_str());
            if let Some(n) = parse_unsigned_exec(&v, 65535) {
                self.surge.http_api_port = n as u16;
            }
        }
        if let Some(k) = key {
            self.surge.http_api_key = k;
        }
        if let Some(c) = cli_path {
            self.surge.cli_path = Some(c);
        }
    }
}

impl Default for Config {
    fn default() -> (r: Self)
        ensures
            r.is_default(),
    {
        Config {
            surge: SurgeConfig {
                http_api_host: default_http_api_host(),
                http_api_port: default_http_api_port(),
                http_api_key: String::new(),
                cli_path: default_cli_path(),
            },
            ui: UiConfig {
                refresh_interval: default_refresh_interval(),
                max_requests: default_max_requests(),
            },
        }
    }
}

} // verus!
