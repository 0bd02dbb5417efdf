use vstd::prelude::*;

verus! {

/// Settings read from the process environment at start-up.
///
/// `host` and `port` fall back to [`default_host`] and [`default_port`] when the
/// environment leaves them unset; every other setting falls back to the empty string.
#[derive(Debug, Clone)]
pub struct ConfigEnvironment {
    pub host: String,
    pub port: u16,
    pub database_url: String,
    pub secret: String,
    pub salt: String,
    pub bucket_name: String,
    pub cdn_url: String,
}

/// The address the server listens on when none is configured.
pub fn default_host() -> (host: String)
    ensures
        host@ == "127.0.0.1"@,
{
    String::from_str("127.0.0.1")
}

/// The port the server listens on when none is configured.
pub fn default_port() -> (port: u16)
    ensures
        port == 4000,
{
    4000
}

impl Default for ConfigEnvironment {
    /// Every field empty or zero.
    fn default() -> (cfg: Self)
        ensures
            cfg.host@ == Seq::<char>::empty(),
            cfg.port == 0,
            cfg.database_url@ == Seq::<char>::empty(),
            cfg.secret@ == Seq::<char>::empty(),
            cfg.salt@ == Seq::<char>::empty(),
            cfg.bucket_name@ == Seq::<char>::empty(),
            cfg.cdn_url@ == Seq::<char>::empty(),
    {
        ConfigEnvironment {
            host: String::new(),
            port: 0,
            database_url: String::new(),
            secret: String::new(),
            salt: String::new(),
            bucket_name: String::new(),
            cdn_url: String::new(),
        }
    }
}

impl ConfigEnvironment {
    /// Completes a partially given configuration: an unset host or port takes its
    /// default, every other unset setting the empty string.
    pub fn with_defaults(
        host: Option<String>,
        port: Option<u16>,
        database_url: Option<String>,
        secret: Option<String>,
        salt: Option<String>,
        bucket_name: Option<String>,
        cdn_url: Option<String>,
    ) -> (cfg: Self)
        ensures
            cfg.host@ == (match host { Some(h) => h@, None => "127.0.0.1"@ }),
            cfg.port == (match port { Some(p) => p, None => 4000u16 }),
            cfg.database_url@ == or_empty(database_url),
            cfg.secret@ == or_empty(secret),
            cfg.salt@ == or_empty(salt),
            cfg.bucket_name@ == or_empty(bucket_name),
            cfg.cdn_url@ == or_empty(cdn_url),
    {
        ConfigEnvironment {
            host: match host {
                Some(h) => h,
                None => default_host(),
            },
            port: match port {
                Some(p) => p,
                None => default_port(),
            },
            database_url: unwrap_or_empty(database_url),
            secret: unwrap_or_empty(secret),
            salt: unwrap_or_empty(salt),
            bucket_name: unwrap_or_empty(bucket_name),
            cdn_url: unwrap_or_empty(cdn_url),
        }
    }
}

/// The text of a setting, or the empty text when it is unset.
pub open spec fn or_empty(value: Option<String>) -> Seq<char> {
    match value {
        Some(v) => v@,
        None => Seq::<char>::empty(),
    }
}

fn unwrap_or_empty(value: Option<String>) -> (text: String)
    ensures
        text@ == or_empty(value),
{
    match value {
        Some(v) => v,
        None => String::new(),
    }
}

} // verus!
