//! Server settings drawn from the process environment.
use vstd::prelude::*;
use vstd::string::*;
use crate::decimal::{decimal_text, decimal_value, format_i32, i32_value, parse_i32};

verus! {

/// The port the server listens on when `PORT` is absent or not an `i32`.
pub const DEFAULT_PORT: i32 = 8080;

/// The most database connections the pool holds at once.
pub const MAX_DB_CONNECTIONS: u32 = 5;

/// The host the server listens on when `HOST` is absent.
pub open spec fn default_host() -> Seq<char> {
    seq!['1', '2', '7', '.', '0', '.', '0', '.', '1']
}

/// The host chosen from the value of `HOST`, if it held one.
pub open spec fn chosen_host(raw: Option<Seq<char>>) -> Seq<char> {
    match raw {
        Some(h) => h,
        None => default_host(),
    }
}

/// The port chosen from the value of `PORT`, if it held one: its number when it
/// reads as an `i32`, and the default port otherwise.
pub open spec fn chosen_port(raw: Option<Seq<char>>) -> int {
    match raw {
        Some(p) => match i32_value(p) {
            Some(v) => v,
            None => DEFAULT_PORT as int,
        },
        None => DEFAULT_PORT as int,
    }
}

/// The text of an optional string.
pub open spec fn text_of(raw: Option<String>) -> Option<Seq<char>> {
    match raw {
        Some(s) => Some(s@),
        None => None,
    }
}

/// The address text `host:port` that the listener binds.
pub open spec fn address_text(host: Seq<char>, port: int) -> Seq<char> {
    host + seq![':'] + decimal_text(port)
}

/// Why the server cannot start.
#[derive(Clone, Copy, Debug, PartialEq, Eq, Structural)]
pub enum ConfigError {
    /// `DATABASE_URL` holds no value.
    MissingDatabaseUrl,
}

/// Everything the server needs from its environment before it starts.
pub struct ServerConfig {
    pub host: String,
    pub port: i32,
    pub database_url: String,
}

/// The host to listen on: the value of `HOST`, or `127.0.0.1` without one.
pub fn resolve_host(raw: Option<String>) -> (r: String)
    ensures
        r@ == chosen_host(text_of(raw)),
{
    match raw {
        Some(h) => h,
        None => {
            let h = String::from_str("127.0.0.1");
            proof {
                reveal_strlit("127.0.0.1");
            }
            assert(h@ =~= default_host());
            h
        },
    }
}

/// The port to listen on: the value of `PORT` read as an `i32`, or the default
/// port when it is absent or does not read as one.
pub fn resolve_port(raw: Option<&str>) -> (r: i32)
    ensures
        r as int == chosen_port(match raw {
            Some(p) => Some(p@),
            None => None,
        }),
        raw is None ==> r == DEFAULT_PORT,
        raw matches Some(p) && i32_value(p@) is None ==> r == DEFAULT_PORT,
{
    match raw {
        Some(p) => match parse_i32(p) {
            Some(v) => v,
            None => DEFAULT_PORT,
        },
        None => DEFAULT_PORT,
    }
}

/// Gathers the settings from the values of `HOST`, `PORT` and `DATABASE_URL`.
/// Fails exactly when `DATABASE_URL` holds no value; a missing host or an
/// unreadable port falls back to its default.
pub fn load_config(host: Option<String>, port: Option<String>, database_url: Option<String>) -> (r:
    Result<ServerConfig, ConfigError>)
    ensures
        database_url is None <==> r is Err,
        r matches Err(e) ==> e == ConfigError::MissingDatabaseUrl,
        r matches Ok(c) ==> {
            &&& c.host@ == chosen_host(text_of(host))
            &&& c.port as int == chosen_port(text_of(port))
            &&& text_of(database_url) == Some(c.database_url@)
        },
{
    let database_url = match database_url {
        Some(u) => u,
        None => {
            return Err(ConfigError::MissingDatabaseUrl);
        },
    };
    let port = match &port {
        Some(p) => resolve_port(Some(p.as_str())),
        None => resolve_port(None),
    };
    let host = resolve_host(host);
    Ok(ServerConfig { host, port, database_url })
}

/// A `PORT` value that is not a decimal integer leaves the server on the
/// default port.
pub proof fn non_numeric_port_uses_default(port: Seq<char>)
    requires
        decimal_value(port) is None,
    ensures
        chosen_port(Some(port)) == DEFAULT_PORT as int,
{
}

impl ServerConfig {
    /// The address the listener binds: the host, a colon, and the port in decimal.
    pub fn bind_address(&self) -> (r: String)
        ensures
            r@ == address_text(self.host@, self.port as int),
    {
        let mut out = self.host.clone();
        out.append(":");
        proof {
            reveal_strlit(":");
        }
        let digits = format_i32(self.port);
        out.append(digits.as_str());
        assert(out@ =~= address_text(self.host@, self.port as int));
        out
    }
}

} // verus!
