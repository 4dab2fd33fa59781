//! Agent configuration: broker address, port and optional credentials, read
//! from a TOML document with the keys `broker_ip`, `broker_port`, `username`
//! and `password`.

use vstd::prelude::*;

verus! {

/// User name and password for the broker.
#[derive(Debug)]
pub struct Credentials {
    pub username: String,
    pub password: String,
}

/// Why no configuration could be had.
#[derive(Debug)]
pub enum ConfigError {
    /// The configuration could not be read; the text says why.
    Unavailable(String),
    /// The text is not valid TOML; the parser's message.
    Malformed(String),
    /// `broker_ip` is absent or not a string.
    MissingAddress,
    /// `broker_port` is absent or not an integer.
    MissingPort,
    /// `broker_port` is an integer outside `0..=65535`.
    PortOutOfRange(i64),
    /// `broker_ip` is the empty string.
    EmptyAddress,
    /// `broker_port` is zero.
    ZeroPort,
}

/// A valid configuration: the broker address is not empty and the port is
/// not zero.
#[derive(Debug)]
pub struct Config {
    broker_address: String,
    broker_port: u16,
    credentials: Option<Credentials>,
}

impl Config {
    /// The broker's host name or address.
    pub closed spec fn spec_address(&self) -> String {
        self.broker_address
    }

    /// The broker's port.
    pub closed spec fn spec_port(&self) -> u16 {
        self.broker_port
    }

    /// The credentials to connect with, if any.
    pub closed spec fn spec_credentials(&self) -> Option<Credentials> {
        self.credentials
    }

    /// What every configuration satisfies.
    #[verifier::type_invariant]
    pub open spec fn is_valid(&self) -> bool {
        self.spec_address()@.len() > 0 && self.spec_port() != 0
    }

    /// A configuration from its parts; the address must not be empty and the
    /// port must not be zero.
    pub fn new(broker_address: String, broker_port: u16, credentials: Option<Credentials>) -> (r:
        Result<Config, ConfigError>)
        ensures
            broker_address@.len() == 0 ==> r == Err::<Config, ConfigError>(ConfigError::EmptyAddress),
            broker_address@.len() > 0 && broker_port == 0 ==> r == Err::<Config, ConfigError>(
                ConfigError::ZeroPort,
            ),
            broker_address@.len() > 0 && broker_port != 0 ==> (r matches Ok(c) && c.spec_address()
                == broker_address && c.spec_port() == broker_port && c.spec_credentials()
                == credentials),
    {
        if broker_address.as_str().is_empty() {
            Err(ConfigError::EmptyAddress)
        } else if broker_port == 0 {
            Err(ConfigError::ZeroPort)
        } else {
            Ok(Config { broker_address, broker_port, credentials })
        }
    }

    /// The broker's host name or address.
    pub fn broker_address(&self) -> (r: &String)
        ensures
            *r == self.spec_address(),
    {
        &self.broker_address
    }

    /// The broker's port.
    pub fn broker_port(&self) -> (r: u16)
        ensures
            r == self.spec_port(),
    {
        self.broker_port
    }

    /// The credentials to connect with, if any.
    pub fn credentials(&self) -> (r: &Option<Credentials>)
        ensures
            *r == self.spec_credentials(),
    {
        &self.credentials
    }
}

/// The keys of a configuration document, each as found: a string, an
/// integer, or `None` where the key is absent or of another type.
#[derive(Debug)]
pub struct ConfigFields {
    pub broker_ip: Option<String>,
    pub broker_port: Option<i64>,
    pub username: Option<String>,
    pub password: Option<String>,
}

/// The view of an optional string.
pub open spec fn text_view(s: Option<String>) -> Option<Seq<char>> {
    match s {
        Some(t) => Some(t@),
        None => None,
    }
}

/// The view of what the TOML reader returned: the keys, or the parser's
/// message.
pub open spec fn fields_view(r: Result<ConfigFields, String>) -> Result<
    (Option<Seq<char>>, Option<i64>, Option<Seq<char>>, Option<Seq<char>>),
    Seq<char>,
> {
    match r {
        Ok(f) => Ok(
            (text_view(f.broker_ip), f.broker_port, text_view(f.username), text_view(f.password)),
        ),
        Err(msg) => Err(msg@),
    }
}

/// Key of the broker address.
pub const BROKER_IP_KEY: &'static str = "broker_ip";

/// Key of the broker port.
pub const BROKER_PORT_KEY: &'static str = "broker_port";

/// Key of the user name.
pub const USERNAME_KEY: &'static str = "username";

/// Key of the password.
pub const PASSWORD_KEY: &'static str = "password";

/// The TOML parser's message for `text`, or `None` when `text` is a valid
/// TOML document.
pub uninterp spec fn toml_error_of(text: Seq<char>) -> Option<Seq<char>>;

/// The string stored under the top-level `key` of the TOML document `text`;
/// `None` when the text is not valid TOML, the key is absent, or its value
/// is not a string.
pub uninterp spec fn toml_str_field_of(text: Seq<char>, key: Seq<char>) -> Option<Seq<char>>;

/// The integer stored under the top-level `key` of the TOML document
/// `text`; `None` when the text is not valid TOML, the key is absent, or its
/// value is not an integer.
pub uninterp spec fn toml_int_field_of(text: Seq<char>, key: Seq<char>) -> Option<i64>;

/// Relies on toml's parser for `toml::Table` (`str::parse`) and on the
/// `Display` text of its error. The outcome depends on the text alone.
#[verifier::external_body]
fn toml_error(text: &str) -> (r: Option<String>)
    ensures
        text_view(r) == toml_error_of(text@),
{
    text.parse::<toml::Table>().err().map(|e| e.to_string())
}

/// Relies on toml's parser for `toml::Table` (`str::parse`), on `Map::get`
/// to look up `key`, and on `Value::as_str` to take a string. The outcome
/// depends on the arguments alone.
#[verifier::external_body]
fn toml_str_field(text: &str, key: &str) -> (r: Option<String>)
    ensures
        text_view(r) == toml_str_field_of(text@, key@),
{
    Some(text.parse::<toml::Table>().ok()?.get(key)?.as_str()?.to_string())
}

/// Relies on toml's parser for `toml::Table` (`str::parse`), on `Map::get`
/// to look up `key`, and on `Value::as_integer` to take an integer. The
/// outcome depends on the arguments alone.
#[verifier::external_body]
fn toml_int_field(text: &str, key: &str) -> (r: Option<i64>)
    ensures
        r == toml_int_field_of(text@, key@),
{
    text.parse::<toml::Table>().ok()?.get(key)?.as_integer()
}

/// What the TOML reader finds in `text`: the parser's message when the text
/// is not valid TOML; else the string under `broker_ip`, the integer under
/// `broker_port`, and the strings under `username` and `password`.
pub open spec fn toml_fields_of(text: Seq<char>) -> Result<
    (Option<Seq<char>>, Option<i64>, Option<Seq<char>>, Option<Seq<char>>),
    Seq<char>,
> {
    match toml_error_of(text) {
        Some(msg) => Err(msg),
        None => Ok(
            (
                toml_str_field_of(text, BROKER_IP_KEY@),
                toml_int_field_of(text, BROKER_PORT_KEY@),
                toml_str_field_of(text, USERNAME_KEY@),
                toml_str_field_of(text, PASSWORD_KEY@),
            ),
        ),
    }
}

/// The credentials, when both a user name and a password are given.
pub open spec fn credentials_view(c: Option<Credentials>) -> Option<(Seq<char>, Seq<char>)> {
    match c {
        Some(k) => Some((k.username@, k.password@)),
        None => None,
    }
}

/// Both parts of the credentials, or `None` if either is missing.
pub open spec fn both(user: Option<Seq<char>>, password: Option<Seq<char>>) -> Option<
    (Seq<char>, Seq<char>),
> {
    match (user, password) {
        (Some(u), Some(p)) => Some((u, p)),
        _ => None,
    }
}

/// Whether `r` is the outcome that the keys `parsed` call for. Checks come
/// in this order: syntax, presence and type of the address, of the port,
/// range of the port, empty address, zero port.
pub open spec fn loads_as(
    r: Result<Config, ConfigError>,
    parsed: Result<
        (Option<Seq<char>>, Option<i64>, Option<Seq<char>>, Option<Seq<char>>),
        Seq<char>,
    >,
) -> bool {
    match parsed {
        Err(msg) => r matches Err(ConfigError::Malformed(m)) && m@ == msg,
        Ok((ip, port, user, password)) => match ip {
            None => r == Err::<Config, ConfigError>(ConfigError::MissingAddress),
            Some(address) => match port {
                None => r == Err::<Config, ConfigError>(ConfigError::MissingPort),
                Some(p) => {
                    if p < 0 || p > u16::MAX {
                        r == Err::<Config, ConfigError>(ConfigError::PortOutOfRange(p))
                    } else if address.len() == 0 {
                        r == Err::<Config, ConfigError>(ConfigError::EmptyAddress)
                    } else if p == 0 {
                        r == Err::<Config, ConfigError>(ConfigError::ZeroPort)
                    } else {
                        r matches Ok(c) && c.spec_address()@ == address && c.spec_port() == p
                            && credentials_view(c.spec_credentials()) == both(user, password)
                    }
                },
            },
        },
    }
}

/// Builds and checks a configuration from the keys that the TOML reader
/// found, or reports the reader's error.
pub fn config_from_fields(parsed: Result<ConfigFields, String>) -> (r: Result<Config, ConfigError>)
    ensures
        loads_as(r, fields_view(parsed)),
{
    match parsed {
        Err(msg) => Err(ConfigError::Malformed(msg)),
        Ok(fields) => {
            let address = match fields.broker_ip {
                Some(a) => a,
                None => {
                    return Err(ConfigError::MissingAddress);
                },
            };
            let port = match fields.broker_port {
                Some(p) => p,
                None => {
                    return Err(ConfigError::MissingPort);
                },
            };
            if port < 0 || port > 65535 {
                return Err(ConfigError::PortOutOfRange(port));
            }
            let credentials = match (fields.username, fields.password) {
                (Some(username), Some(password)) => Some(Credentials { username, password }),
                _ => None,
            };
            Config::new(address, port as u16, credentials)
        },
    }
}

/// Reads a configuration from TOML text.
pub fn load_config(text: &str) -> (r: Result<Config, ConfigError>)
    ensures
        loads_as(r, toml_fields_of(text@)),
{
    let parsed = match toml_error(text) {
        Some(msg) => Err(msg),
        None => Ok(
            ConfigFields {
                broker_ip: toml_str_field(text, BROKER_IP_KEY),
                broker_port: toml_int_field(text, BROKER_PORT_KEY),
                username: toml_str_field(text, USERNAME_KEY),
                password: toml_str_field(text, PASSWORD_KEY),
            },
        ),
    };
    config_from_fields(parsed)
}

} // verus!
