//! Startup settings, as read from the values of the process environment.

use crate::text::chars_of;
use vstd::prelude::*;

verus! {

/// Name of the variable that holds the port to listen on.
pub const PORT_VAR: &'static str = "PORT";

/// Name of the variable that holds the Cloudflare account.
pub const ACCOUNT_ID_VAR: &'static str = "CLOUDFLARE_ACCOUNT_ID";

/// Name of the variable that holds the Cloudflare API token.
pub const API_TOKEN_VAR: &'static str = "CLOUDFLARE_API_TOKEN";

/// Name of the variable that holds the key-value namespace.
pub const KV_NAMESPACE_ID_VAR: &'static str = "CLOUDFLARE_KV_NAMESPACE_ID";

/// Name of the variable that holds the address of the object store.
pub const R2_ENDPOINT_VAR: &'static str = "R2_ENDPOINT";

/// Name of the variable that holds the key id for the object store.
pub const R2_ACCESS_KEY_ID_VAR: &'static str = "R2_ACCESS_KEY_ID";

/// Name of the variable that holds the secret key for the object store.
pub const R2_SECRET_ACCESS_KEY_VAR: &'static str = "R2_SECRET_ACCESS_KEY";

/// The port used where the environment names none.
pub const DEFAULT_PORT: &'static str = "3000";

/// Why a text is not a port number.
#[derive(Debug, Clone, Copy, PartialEq, Eq, Structural)]
pub enum PortError {
    /// The text is empty.
    Empty,
    /// A character is no decimal digit, or a sign stands alone.
    InvalidDigit,
    /// The number is above 65535.
    TooLarge,
}

/// Why the settings could not be loaded.
#[derive(Debug)]
pub enum ConfigError {
    /// A required variable is not set; holds its name.
    MissingEnvVar(String),
    /// The port is no number between 0 and 65535; holds the reason.
    InvalidPort(String),
}

/// A `ConfigError` as plain values.
pub enum ConfigErrorView {
    MissingEnvVar(Seq<char>),
    InvalidPort(Seq<char>),
}

impl View for ConfigError {
    type V = ConfigErrorView;

    open spec fn view(&self) -> ConfigErrorView {
        match self {
            ConfigError::MissingEnvVar(name) => ConfigErrorView::MissingEnvVar(name@),
            ConfigError::InvalidPort(reason) => ConfigErrorView::InvalidPort(reason@),
        }
    }
}

/// The settings of the proxy.
#[derive(Debug)]
pub struct Config {
    pub port: u16,
    pub cloudflare_account_id: String,
    pub cloudflare_api_token: String,
    pub r2_endpoint: String,
    pub r2_access_key_id: String,
    pub r2_secret_access_key: String,
}

/// A `Config` as plain values.
pub struct ConfigView {
    pub port: u16,
    pub cloudflare_account_id: Seq<char>,
    pub cloudflare_api_token: Seq<char>,
    pub r2_endpoint: Seq<char>,
    pub r2_access_key_id: Seq<char>,
    pub r2_secret_access_key: Seq<char>,
}

impl View for Config {
    type V = ConfigView;

    open spec fn view(&self) -> ConfigView {
        ConfigView {
            port: self.port,
            cloudflare_account_id: self.cloudflare_account_id@,
            cloudflare_api_token: self.cloudflare_api_token@,
            r2_endpoint: self.r2_endpoint@,
            r2_access_key_id: self.r2_access_key_id@,
            r2_secret_access_key: self.r2_secret_access_key@,
        }
    }
}

/// What the environment holds under the names that the settings are read
/// from; `None` where a variable is not set or is not text.
#[derive(Debug)]
pub struct EnvValues {
    pub port: Option<String>,
    pub cloudflare_account_id: Option<String>,
    pub cloudflare_api_token: Option<String>,
    pub r2_endpoint: Option<String>,
    pub r2_access_key_id: Option<String>,
    pub r2_secret_access_key: Option<String>,
}

/// `EnvValues` as plain values.
pub struct EnvValuesView {
    pub port: Option<Seq<char>>,
    pub cloudflare_account_id: Option<Seq<char>>,
    pub cloudflare_api_token: Option<Seq<char>>,
    pub r2_endpoint: Option<Seq<char>>,
    pub r2_access_key_id: Option<Seq<char>>,
    pub r2_secret_access_key: Option<Seq<char>>,
}

/// The view of an optional string.
pub open spec fn text_of(value: Option<String>) -> Option<Seq<char>> {
    match value {
        Some(text) => Some(text@),
        None => None,
    }
}

impl View for EnvValues {
    type V = EnvValuesView;

    open spec fn view(&self) -> EnvValuesView {
        EnvValuesView {
            port: text_of(self.port),
            cloudflare_account_id: text_of(self.cloudflare_account_id),
            cloudflare_api_token: text_of(self.cloudflare_api_token),
            r2_endpoint: text_of(self.r2_endpoint),
            r2_access_key_id: text_of(self.r2_access_key_id),
            r2_secret_access_key: text_of(self.r2_secret_access_key),
        }
    }
}

/// The value of the decimal digit `c`, if it is one.
pub open spec fn digit_value(c: char) -> Option<nat> {
    if '0' <= c && c <= '9' {
        Some((c as u32 - 48) as nat)
    } else {
        None
    }
}

/// Reads `digits` from left to right as the decimal continuation of `acc`:
/// the first character that is no digit, or the first digit that takes the
/// number above 65535, ends the reading with an error.
pub open spec fn read_digits(digits: Seq<char>, acc: nat) -> Result<nat, PortError>
    decreases digits.len(),
{
    if digits.len() == 0 {
        Ok(acc)
    } else {
        match digit_value(digits[0]) {
            None => Err(PortError::InvalidDigit),
            Some(d) => if acc * 10 + d > 65535 {
                Err(PortError::TooLarge)
            } else {
                read_digits(digits.drop_first(), acc * 10 + d)
            },
        }
    }
}

/// `text` without a plus sign that stands before something else.
pub open spec fn unsigned_part(text: Seq<char>) -> Seq<char> {
    if text.len() > 1 && text[0] == '+' {
        text.drop_first()
    } else {
        text
    }
}

/// The port that `text` names: decimal digits, after at most one plus sign,
/// whose value is at most 65535.
pub open spec fn port_of(text: Seq<char>) -> Result<u16, PortError> {
    if text.len() == 0 {
        Err(PortError::Empty)
    } else {
        match read_digits(unsigned_part(text), 0) {
            Ok(n) => Ok(n as u16),
            Err(e) => Err(e),
        }
    }
}

/// What is said of a text that is not a port number.
pub open spec fn port_error_text(e: PortError) -> Seq<char> {
    match e {
        PortError::Empty => "cannot parse integer from empty string"@,
        PortError::InvalidDigit => "invalid digit found in string"@,
        PortError::TooLarge => "number too large to fit in target type"@,
    }
}

/// The settings that `env` gives. The port is read first, `DEFAULT_PORT`
/// standing in for a missing one; then the first required variable that is
/// missing, in the order of the fields, is the error.
pub open spec fn config_of(env: EnvValuesView) -> Result<ConfigView, ConfigErrorView> {
    let port_text = match env.port {
        Some(text) => text,
        None => DEFAULT_PORT@,
    };
    match port_of(port_text) {
        Err(e) => Err(ConfigErrorView::InvalidPort(port_error_text(e))),
        Ok(port) => if env.cloudflare_account_id is None {
            Err(ConfigErrorView::MissingEnvVar(ACCOUNT_ID_VAR@))
        } else if env.cloudflare_api_token is None {
            Err(ConfigErrorView::MissingEnvVar(API_TOKEN_VAR@))
        } else if env.r2_endpoint is None {
            Err(ConfigErrorView::MissingEnvVar(R2_ENDPOINT_VAR@))
        } else if env.r2_access_key_id is None {
            Err(ConfigErrorView::MissingEnvVar(R2_ACCESS_KEY_ID_VAR@))
        } else if env.r2_secret_access_key is None {
            Err(ConfigErrorView::MissingEnvVar(R2_SECRET_ACCESS_KEY_VAR@))
        } else {
            Ok(
                ConfigView {
                    port,
                    cloudflare_account_id: env.cloudflare_account_id->0,
                    cloudflare_api_token: env.cloudflare_api_token->0,
                    r2_endpoint: env.r2_endpoint->0,
                    r2_access_key_id: env.r2_access_key_id->0,
                    r2_secret_access_key: env.r2_secret_access_key->0,
                },
            )
        },
    }
}

/// The view of the outcome of loading the settings.
pub open spec fn loaded_view(outcome: Result<Config, ConfigError>) -> Result<
    ConfigView,
    ConfigErrorView,
> {
    match outcome {
        Ok(config) => Ok(config@),
        Err(e) => Err(e@),
    }
}

/// Reads a port number from `text`.
pub fn parse_port(text: &str) -> (out: Result<u16, PortError>)
    ensures
        out == port_of(text@),
{
    let chars = chars_of(text);
    let n = chars.len();
    if n == 0 {
        return Err(PortError::Empty);
    }
    let mut i: usize = if n > 1 && chars[0] == '+' {
        1
    } else {
        0
    };
    let ghost digits = unsigned_part(text@);
    let ghost start = i as int;
    assert(digits =~= text@.skip(start));
    let mut acc: u32 = 0;
    while i < n
        invariant
            start <= i <= n,
            n == chars@.len(),
            chars@ == text@,
            digits == text@.skip(start),
            digits == unsigned_part(text@),
            text@.len() > 0,
            acc <= 65535,
            read_digits(digits, 0) == read_digits(text@.skip(i as int), acc as nat),
        decreases n - i,
    {
        let c = chars[i];
        proof {
            let rest = text@.skip(i as int);
            assert(rest[0] == c);
            assert(rest.drop_first() =~= text@.skip(i + 1));
        }
        if !('0' <= c && c <= '9') {
            return Err(PortError::InvalidDigit);
        }
        let d: u32 = c as u32 - 48;
        if acc * 10 + d > 65535 {
            return Err(PortError::TooLarge);
        }
        acc = acc * 10 + d;
        i += 1;
    }
    proof {
        assert(text@.skip(n as int).len() == 0);
    }
    Ok(acc as u16)
}

/// Says why a text is not a port number.
pub fn port_error_message(e: PortError) -> (out: String)
    ensures
        out@ == port_error_text(e),
{
    match e {
        PortError::Empty => "cannot parse integer from empty string".to_owned(),
        PortError::InvalidDigit => "invalid digit found in string".to_owned(),
        PortError::TooLarge => "number too large to fit in target type".to_owned(),
    }
}

fn required(value: Option<String>, name: &'static str) -> (out: Result<String, ConfigError>)
    ensures
        match out {
            Ok(text) => value == Some(text),
            Err(e) => value is None && e@ == ConfigErrorView::MissingEnvVar(name@),
        },
{
    match value {
        Some(text) => Ok(text),
        None => Err(ConfigError::MissingEnvVar(name.to_owned())),
    }
}

impl ConfigError {
    /// The error written out for a log or a reader.
    pub fn to_message(&self) -> (out: String)
        ensures
            out@ == config_error_text(self@),
    {
        match self {
            ConfigError::MissingEnvVar(name) => crate::text::prefixed(
                "Missing env var: ",
                name.as_str(),
            ),
            ConfigError::InvalidPort(reason) => crate::text::prefixed(
                "Port parse failed: ",
                reason.as_str(),
            ),
        }
    }
}

/// A settings error written out.
pub open spec fn config_error_text(e: ConfigErrorView) -> Seq<char> {
    match e {
        ConfigErrorView::MissingEnvVar(name) => "Missing env var: "@ + name,
        ConfigErrorView::InvalidPort(reason) => "Port parse failed: "@ + reason,
    }
}

impl Clone for Config {
    fn clone(&self) -> (out: Self)
        ensures
            out@ == self@,
    {
        Config {
            port: self.port,
            cloudflare_account_id: self.cloudflare_account_id.clone(),
            cloudflare_api_token: self.cloudflare_api_token.clone(),
            r2_endpoint: self.r2_endpoint.clone(),
            r2_access_key_id: self.r2_access_key_id.clone(),
            r2_secret_access_key: self.r2_secret_access_key.clone(),
        }
    }
}

impl Config {
    /// Loads the settings from the values that the environment holds.
    pub fn from_env(env: EnvValues) -> (out: Result<Config, ConfigError>)
        ensures
            loaded_view(out) == config_of(env@),
    {
        let parsed = match &env.port {
            Some(text) => parse_port(text.as_str()),
            None => parse_port(DEFAULT_PORT),
        };
        let port = match parsed {
            Ok(port) => port,
            Err(e) => {
                return Err(ConfigError::InvalidPort(port_error_message(e)));
            },
        };
        let cloudflare_account_id = match required(env.cloudflare_account_id, ACCOUNT_ID_VAR) {
            Ok(text) => text,
            Err(e) => {
                return Err(e);
            },
        };
        let cloudflare_api_token = match required(env.cloudflare_api_token, API_TOKEN_VAR) {
            Ok(text) => text,
            Err(e) => {
                return Err(e);
            },
        };
        let r2_endpoint = match required(env.r2_endpoint, R2_ENDPOINT_VAR) {
            Ok(text) => text,
            Err(e) => {
                return Err(e);
            },
        };
        let r2_access_key_id = match required(env.r2_access_key_id, R2_ACCESS_KEY_ID_VAR) {
            Ok(text) => text,
            Err(e) => {
                return Err(e);
            },
        };
        let r2_secret_access_key = match required(
            env.r2_secret_access_key,
            R2_SECRET_ACCESS_KEY_VAR,
        ) {
            Ok(text) => text,
            Err(e) => {
                return Err(e);
            },
        };
        Ok(
            Config {
                port,
                cloudflare_account_id,
                cloudflare_api_token,
                r2_endpoint,
                r2_access_key_id,
                r2_secret_access_key,
            },
        )
    }
}

} // verus!
