use vstd::prelude::*;

verus! {

/// The server's settings once every default has been applied.
#[derive(Debug, Clone)]
pub struct Config {
    pub root_directory: String,
    pub static_directory: Option<String>,
    pub bind_address: String,
    pub port: u16,
    pub max_upload_size: u64,
    pub enable_delete: bool,
}

/// The settings as they were read from the configuration sources, each one
/// absent where no source gave it.
#[derive(Debug, Clone, Default)]
pub struct RawConfig {
    pub root_directory: Option<String>,
    pub static_directory: Option<String>,
    pub bind_address: Option<String>,
    pub port: Option<u16>,
    pub max_upload_size: Option<u64>,
    pub enable_delete: Option<bool>,
}

pub open spec fn default_root_spec() -> Seq<char> {
    "/home/pi/media"@
}

pub open spec fn default_bind_spec() -> Seq<char> {
    "0.0.0.0"@
}

/// The upload ceiling where none is configured: 100 MiB.
pub const DEFAULT_MAX_UPLOAD: u64 = 104857600;

pub const DEFAULT_PORT: u16 = 8000;

pub fn default_root() -> (r: String)
    ensures
        r@ == default_root_spec(),
{
    String::from_str("/home/pi/media")
}

pub fn default_bind() -> (r: String)
    ensures
        r@ == default_bind_spec(),
{
    String::from_str("0.0.0.0")
}

pub fn default_port() -> (r: u16)
    ensures
        r == DEFAULT_PORT,
{
    DEFAULT_PORT
}

pub fn default_max_upload() -> (r: u64)
    ensures
        r == 100 * 1024 * 1024,
{
    100 * 1024 * 1024
}

pub fn default_enable_delete() -> (r: bool)
    ensures
        r,
{
    true
}

/// A setting's text: the one given, or the default.
pub open spec fn text_or(given: Option<String>, default: Seq<char>) -> Seq<char> {
    match given {
        Some(s) => s@,
        None => default,
    }
}

impl Config {
    /// The settings with a default in place of each one that no source gave.
    pub fn load(raw: RawConfig) -> (r: Config)
        ensures
            r.root_directory@ == text_or(raw.root_directory, default_root_spec()),
            r.static_directory == raw.static_directory,
            r.bind_address@ == text_or(raw.bind_address, default_bind_spec()),
            r.port == (match raw.port {
                Some(p) => p,
                None => DEFAULT_PORT,
            }),
            r.max_upload_size == (match raw.max_upload_size {
                Some(m) => m,
                None => DEFAULT_MAX_UPLOAD,
            }),
            r.enable_delete == (match raw.enable_delete {
                Some(b) => b,
                None => true,
            }),
    {
        let RawConfig {
            root_directory,
            static_directory,
            bind_address,
            port,
            max_upload_size,
            enable_delete,
        } = raw;
        Config {
            root_directory: match root_directory {
                Some(s) => s,
                None => default_root(),
            },
            static_directory,
            bind_address: match bind_address {
                Some(s) => s,
                None => default_bind(),
            },
            port: match port {
                Some(p) => p,
                None => default_port(),
            },
            max_upload_size: match max_upload_size {
                Some(m) => m,
                None => default_max_upload(),
            },
            enable_delete: match enable_delete {
                Some(b) => b,
                None => default_enable_delete(),
            },
        }
    }
}

} // verus!
