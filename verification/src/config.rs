use vstd::prelude::*;

use crate::text::{lemma_port_roundtrip, nat_decimal, parse_u16, parse_u16_spec, str_eq, u64_to_decimal};

verus! {

/// The service's settings.
#[derive(Debug, Clone)]
pub struct Config {
    pub server_host: String,
    pub server_port: u16,
    pub database_url: String,
    pub s3_endpoint: String,
    pub s3_region: String,
    pub s3_bucket: String,
    pub s3_access_key: String,
    pub s3_secret_key: String,
    pub s3_path_style: bool,
    pub jwt_secret: String,
    pub master_api_key: String,
}

/// The raw values of the settings' environment variables, absent when a
/// variable is unset or not valid Unicode.
#[derive(Debug)]
pub struct Settings {
    pub server_host: Option<String>,
    pub server_port: Option<String>,
    pub database_url: Option<String>,
    pub s3_endpoint: Option<String>,
    pub s3_region: Option<String>,
    pub s3_bucket: Option<String>,
    pub s3_access_key: Option<String>,
    pub s3_secret_key: Option<String>,
    pub s3_path_style: Option<String>,
    pub jwt_secret: Option<String>,
    pub master_api_key: Option<String>,
}

/// A setting's value, or its default when absent.
pub open spec fn or_default(v: Option<String>, default: Seq<char>) -> Seq<char> {
    match v {
        Some(s) => s@,
        None => default,
    }
}

/// The port setting: its value when it parses as a port number, else 4004.
pub open spec fn port_setting(v: Option<String>) -> u16 {
    match v {
        Some(s) => match parse_u16_spec(s@) {
            Some(p) => p,
            None => 4004,
        },
        None => 4004,
    }
}

/// The path-style setting: on when absent; when given, on exactly for
/// `true` and `1`.
pub open spec fn path_style_setting(v: Option<String>) -> bool {
    match v {
        Some(s) => s@ == "true"@ || s@ == "1"@,
        None => true,
    }
}

/// The port setting is the number that the variable's value reads as, the
/// way std's `str::parse::<u16>` reads it, whatever that number is.
pub proof fn lemma_port_setting_is_parsed(v: Option<String>, p: u16)
    requires
        v is Some,
        parse_u16_spec(v->0@) == Some(p),
    ensures
        port_setting(v) == p,
{
}

/// The port falls back to 4004 only when the variable is absent or does
/// not read as a port number.
pub proof fn lemma_port_default_only_when_unreadable(v: Option<String>)
    ensures
        port_setting(v) == 4004 && v is Some ==> parse_u16_spec(v->0@) == Some(4004u16)
            || parse_u16_spec(v->0@) is None,
        v is None || parse_u16_spec(v->0@) is None ==> port_setting(v) == 4004,
{
}

/// A port number written in decimal is the port the service takes, and its
/// address ends in that number.
pub proof fn lemma_decimal_port_is_used(v: Option<String>, port: u16)
    requires
        v matches Some(t) && t@ == nat_decimal(port as nat),
    ensures
        port_setting(v) == port,
{
    lemma_port_roundtrip(port);
}

fn text_or(v: Option<String>, default: &str) -> (r: String)
    ensures
        r@ == or_default(v, default@),
{
    match v {
        Some(s) => s,
        None => String::from_str(default),
    }
}

impl Config {
    /// The settings made of the environment's values, each falling back to
    /// its default.
    pub fn from_settings(s: Settings) -> (c: Config)
        ensures
            c.server_host@ == or_default(s.server_host, "0.0.0.0"@),
            c.server_port == port_setting(s.server_port),
            c.database_url@ == or_default(s.database_url, "s3manager.db"@),
            c.s3_endpoint@ == or_default(s.s3_endpoint, "http://localhost:9000"@),
            c.s3_region@ == or_default(s.s3_region, "us-east-1"@),
            c.s3_bucket@ == or_default(s.s3_bucket, "s3manager"@),
            c.s3_access_key@ == or_default(s.s3_access_key, "minioadmin"@),
            c.s3_secret_key@ == or_default(s.s3_secret_key, "minioadmin"@),
            c.s3_path_style == path_style_setting(s.s3_path_style),
            c.jwt_secret@ == or_default(s.jwt_secret, "change-me-in-production"@),
            c.master_api_key@ == or_default(s.master_api_key, "dev-key-123"@),
    {
        let server_port = match &s.server_port {
            Some(v) => match parse_u16(v.as_str()) {
                Some(p) => p,
                None => 4004,
            },
            None => 4004,
        };
        let s3_path_style = match &s.s3_path_style {
            Some(v) => str_eq(v.as_str(), "true") || str_eq(v.as_str(), "1"),
            None => true,
        };
        Config {
            server_host: text_or(s.server_host, "0.0.0.0"),
            server_port,
            database_url: text_or(s.database_url, "s3manager.db"),
            s3_endpoint: text_or(s.s3_endpoint, "http://localhost:9000"),
            s3_region: text_or(s.s3_region, "us-east-1"),
            s3_bucket: text_or(s.s3_bucket, "s3manager"),
            s3_access_key: text_or(s.s3_access_key, "minioadmin"),
            s3_secret_key: text_or(s.s3_secret_key, "minioadmin"),
            s3_path_style,
            jwt_secret: text_or(s.jwt_secret, "change-me-in-production"),
            master_api_key: text_or(s.master_api_key, "dev-key-123"),
        }
    }

    /// The address to listen on: `host:port`.
    pub fn server_addr(&self) -> (addr: String)
        ensures
            addr@ == self.server_host@ + ":"@ + nat_decimal(self.server_port as nat),
    {
        let mut addr = self.server_host.clone();
        addr.append(":");
        let port = u64_to_decimal(self.server_port as u64);
        addr.append(port.as_str());
        addr
    }
}

} // verus!
