//! The configuration of the service, made from the values of its
//! environment variables, with a default for each one that is missing or
//! does not parse.

use crate::text::{decimal_digits, parse_unsigned, parsed_unsigned, push_decimal};
use vstd::prelude::*;

verus! {

/// The configuration of the service. It is made once, at startup, and only
/// read afterwards.
#[derive(Debug, Clone, PartialEq, Eq)]
pub struct Config {
    /// The address to listen on.
    pub host: String,
    /// The port to listen on.
    pub port: u16,
    /// The directory that holds the source images.
    pub images_directory: String,
    /// The number of transforms that may run at the same time.
    pub concurrency_limit: usize,
    /// The memory ceiling of the image library's cache, in mebibytes.
    pub vips_cache_mb: u64,
}

/// The mathematical value of a [`Config`].
pub struct ConfigView {
    pub host: Seq<char>,
    pub port: u16,
    pub images_directory: Seq<char>,
    pub concurrency_limit: usize,
    pub vips_cache_mb: u64,
}

impl View for Config {
    type V = ConfigView;

    open spec fn view(&self) -> ConfigView {
        ConfigView {
            host: self.host@,
            port: self.port,
            images_directory: self.images_directory@,
            concurrency_limit: self.concurrency_limit,
            vips_cache_mb: self.vips_cache_mb,
        }
    }
}

/// What the process found in its environment: the value of each variable
/// that is set to valid text, and the number of processing cores, where the
/// system tells it.
#[derive(Debug, Clone, PartialEq, Eq)]
pub struct Environment {
    /// The value of `HOST`.
    pub host: Option<String>,
    /// The value of `PORT`.
    pub port: Option<String>,
    /// The value of `IMAGES_DIR`.
    pub images_dir: Option<String>,
    /// The value of `MAX_CONCURRENCY`.
    pub max_concurrency: Option<String>,
    /// The value of `VIPS_CACHE_MB`.
    pub vips_cache_mb: Option<String>,
    /// The number of processing cores available to the process.
    pub available_parallelism: Option<usize>,
}

/// The mathematical value of an [`Environment`].
pub struct EnvironmentView {
    pub host: Option<Seq<char>>,
    pub port: Option<Seq<char>>,
    pub images_dir: Option<Seq<char>>,
    pub max_concurrency: Option<Seq<char>>,
    pub vips_cache_mb: Option<Seq<char>>,
    pub available_parallelism: Option<usize>,
}

/// The text of an optional string.
pub open spec fn text_of(value: Option<String>) -> Option<Seq<char>> {
    match value {
        Some(text) => Some(text@),
        None => None,
    }
}

impl View for Environment {
    type V = EnvironmentView;

    open spec fn view(&self) -> EnvironmentView {
        EnvironmentView {
            host: text_of(self.host),
            port: text_of(self.port),
            images_dir: text_of(self.images_dir),
            max_concurrency: text_of(self.max_concurrency),
            vips_cache_mb: text_of(self.vips_cache_mb),
            available_parallelism: self.available_parallelism,
        }
    }
}

/// An environment in which no variable is set and the number of cores is
/// unknown.
pub open spec fn empty_environment() -> EnvironmentView {
    EnvironmentView {
        host: None,
        port: None,
        images_dir: None,
        max_concurrency: None,
        vips_cache_mb: None,
        available_parallelism: None,
    }
}

impl Default for Environment {
    /// An environment in which no variable is set and the number of cores
    /// is unknown.
    fn default() -> (env: Environment)
        ensures
            env@ == empty_environment(),
    {
        Environment {
            host: None,
            port: None,
            images_dir: None,
            max_concurrency: None,
            vips_cache_mb: None,
            available_parallelism: None,
        }
    }
}

/// The port listened on when `PORT` gives none.
pub const DEFAULT_PORT: u16 = 3000;

/// The cache ceiling, in mebibytes, when `VIPS_CACHE_MB` gives none.
pub const DEFAULT_VIPS_CACHE_MB: u64 = 128;

/// The number of concurrent transforms when neither `MAX_CONCURRENCY` nor
/// the system gives one.
pub const FALLBACK_CONCURRENCY: usize = 4;

/// The address listened on when `HOST` gives none.
pub open spec fn default_host() -> Seq<char> {
    "0.0.0.0"@
}

/// The directory of the source images when `IMAGES_DIR` gives none.
pub open spec fn default_images_directory() -> Seq<char> {
    "images"@
}

/// The value of a text variable, or its default.
pub open spec fn text_or(value: Option<Seq<char>>, default: Seq<char>) -> Seq<char> {
    match value {
        Some(text) => text,
        None => default,
    }
}

/// The value of a numeric variable: the number it writes, where it is set
/// and writes one no greater than `max`; else the default.
pub open spec fn number_or(value: Option<Seq<char>>, max: nat, default: nat) -> nat {
    match value {
        Some(text) => match parsed_unsigned(text, max) {
            Some(n) => n,
            None => default,
        },
        None => default,
    }
}

/// The number of concurrent transforms when `MAX_CONCURRENCY` gives none:
/// the number of processing cores, where it is known.
pub open spec fn default_concurrency(available_parallelism: Option<usize>) -> usize {
    match available_parallelism {
        Some(cores) => cores,
        None => FALLBACK_CONCURRENCY,
    }
}

/// The configuration that an environment leads to.
pub open spec fn configured(env: EnvironmentView) -> ConfigView {
    ConfigView {
        host: text_or(env.host, default_host()),
        port: number_or(env.port, u16::MAX as nat, DEFAULT_PORT as nat) as u16,
        images_directory: text_or(env.images_dir, default_images_directory()),
        concurrency_limit: number_or(
            env.max_concurrency,
            usize::MAX as nat,
            default_concurrency(env.available_parallelism) as nat,
        ) as usize,
        vips_cache_mb: number_or(env.vips_cache_mb, u64::MAX as nat, DEFAULT_VIPS_CACHE_MB as nat) as u64,
    }
}

/// The text that a configuration listens on: the host, a colon and the port.
pub open spec fn socket_addr_of(config: ConfigView) -> Seq<char> {
    config.host + ":"@ + decimal_digits(config.port as nat)
}

/// The value of a text variable, or its default.
fn text_value(value: Option<String>, default: &str) -> (text: String)
    ensures
        text@ == text_or(text_of(value), default@),
{
    match value {
        Some(text) => text,
        None => String::from_str(default),
    }
}

/// The value of a numeric variable, or its default.
fn number_value(value: &Option<String>, max: u64, default: u64) -> (number: u64)
    requires
        default <= max,
    ensures
        number == number_or(text_of(*value), max as nat, default as nat),
        number <= max,
{
    match value {
        Some(text) => match parse_unsigned(text.as_str(), max) {
            Some(n) => n,
            None => default,
        },
        None => default,
    }
}

impl Config {
    /// Makes the configuration from what the process found in its
    /// environment. A variable that is not set, or whose value is no
    /// number of the field's type, leaves the field at its default.
    pub fn from_env(env: Environment) -> (config: Config)
        ensures
            config@ == configured(env@),
    {
        let port = number_value(&env.port, u16::MAX as u64, DEFAULT_PORT as u64) as u16;
        let cores: usize = match env.available_parallelism {
            Some(cores) => cores,
            None => FALLBACK_CONCURRENCY,
        };
        let concurrency_limit = number_value(
            &env.max_concurrency,
            usize::MAX as u64,
            cores as u64,
        ) as usize;
        let vips_cache_mb = number_value(&env.vips_cache_mb, u64::MAX, DEFAULT_VIPS_CACHE_MB);
        let host = text_value(env.host, "0.0.0.0");
        let images_directory = text_value(env.images_dir, "images");
        Config { host, port, images_directory, concurrency_limit, vips_cache_mb }
    }

    /// The text of the address to listen on: the host, a colon and the
    /// port in decimal.
    pub fn socket_addr(&self) -> (addr: String)
        ensures
            addr@ == socket_addr_of(self@),
    {
        let mut addr = self.host.clone();
        addr.append(":");
        push_decimal(&mut addr, self.port as u64);
        addr
    }
}

} // verus!
