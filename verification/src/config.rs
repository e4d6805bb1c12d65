//! Server configuration: the command line, the configuration file, and the
//! resolved settings that merge them over built-in defaults.

use vstd::prelude::*;
use crate::text::{starts_with_spec, to_owned_string};

verus! {

/// What unauthenticated (anonymous) callers may do when auth is enabled.
#[derive(Debug, Clone, Copy, PartialEq, Eq, Structural)]
pub enum DefaultAccess {
    /// Anyone may read and write (default when auth is disabled).
    ReadWrite,
    /// Anyone may read; only authenticated users may write.
    ReadOnly,
    /// Only authenticated users may read or write.
    DenyAll,
}

impl Default for DefaultAccess {
    fn default() -> (r: Self)
        ensures
            r == DefaultAccess::ReadWrite,
    {
        DefaultAccess::ReadWrite
    }
}

/// Listen address used when neither the command line nor the file gives one.
pub const DEFAULT_LISTEN_HTTP: &'static str = ":2586";

/// How long messages are kept: 12 hours.
pub const DEFAULT_CACHE_DURATION_SECS: u64 = 12 * 60 * 60;

/// Largest message body accepted: 4 KiB.
pub const DEFAULT_MESSAGE_SIZE_LIMIT: usize = 4096;

/// Requests a visitor may make in a burst.
pub const DEFAULT_REQUEST_LIMIT_BURST: u32 = 60;

/// Seconds after which one more request is allowed.
pub const DEFAULT_REQUEST_LIMIT_REPLENISH_SECS: u64 = 5;

/// Subscriptions a visitor may hold.
pub const DEFAULT_SUBSCRIPTION_LIMIT: u32 = 30;

/// Seconds between keepalive events on an idle stream.
pub const DEFAULT_KEEPALIVE_SECS: u64 = 45;

/// Seconds between runs of the background manager: 3 minutes.
pub const DEFAULT_MANAGER_INTERVAL_SECS: u64 = 3 * 60;

/// Command-line arguments; values here override the configuration file.
#[derive(Debug, Clone)]
pub struct Cli {
    /// Path to the configuration file (TOML).
    pub config: String,
    /// HTTP listen address, e.g. ":2586" or "127.0.0.1:8080".
    pub listen_http: Option<String>,
    /// SQLite database file path (absent = in-memory).
    pub cache_file: Option<String>,
    /// Log level: trace, debug, info, warn, error.
    pub log_level: String,
    /// Base URL of this server (e.g. https://ntfy.example.com).
    pub base_url: Option<String>,
}

/// File-based configuration. Every field is optional; defaults apply when absent.
#[derive(Debug, Clone)]
pub struct FileConfig {
    pub listen_http: Option<String>,
    pub base_url: Option<String>,
    pub cache_file: Option<String>,
    pub cache_duration: Option<u64>,
    pub message_size_limit: Option<usize>,
    pub request_limit_burst: Option<u32>,
    pub request_limit_replenish: Option<u64>,
    pub subscription_limit: Option<u32>,
    pub keepalive_interval: Option<u64>,
    pub manager_interval: Option<u64>,
    /// When set, auth is enabled and the auth database is stored here.
    /// When absent, auth is disabled and all requests are allowed.
    pub auth_file: Option<String>,
    pub default_access: Option<DefaultAccess>,
}

impl Default for FileConfig {
    fn default() -> (r: Self)
        ensures
            r.is_empty(),
    {
        FileConfig {
            listen_http: None,
            base_url: None,
            cache_file: None,
            cache_duration: None,
            message_size_limit: None,
            request_limit_burst: None,
            request_limit_replenish: None,
            subscription_limit: None,
            keepalive_interval: None,
            manager_interval: None,
            auth_file: None,
            default_access: None,
        }
    }
}

impl FileConfig {
    /// No field is set.
    pub open spec fn is_empty(self) -> bool {
        &&& self.listen_http is None
        &&& self.base_url is None
        &&& self.cache_file is None
        &&& self.cache_duration is None
        &&& self.message_size_limit is None
        &&& self.request_limit_burst is None
        &&& self.request_limit_replenish is None
        &&& self.subscription_limit is None
        &&& self.keepalive_interval is None
        &&& self.manager_interval is None
        &&& self.auth_file is None
        &&& self.default_access is None
    }
}

/// Resolved, fully populated configuration used at run time.
#[derive(Debug, Clone)]
pub struct Config {
    pub listen_http: String,
    pub base_url: String,
    pub cache_file: Option<String>,
    /// How long messages are retained (seconds).
    pub cache_duration_secs: u64,
    pub message_size_limit: usize,
    pub request_limit_burst: u32,
    pub request_limit_replenish_secs: u64,
    pub subscription_limit: u32,
    pub keepalive_secs: u64,
    pub manager_interval_secs: u64,
    /// Auth is active only when `auth_file` is set.
    pub auth_enabled: bool,
    pub auth_file: Option<String>,
    pub default_access: DefaultAccess,
}

/// The characters of an optional string.
pub open spec fn opt_view(o: Option<String>) -> Option<Seq<char>> {
    match o {
        Some(s) => Some(s@),
        None => None,
    }
}

/// The first of `first` and `second` that is present, else `fallback`.
pub open spec fn first_present(
    first: Option<Seq<char>>,
    second: Option<Seq<char>>,
    fallback: Seq<char>,
) -> Seq<char> {
    match first {
        Some(s) => s,
        None => match second {
            Some(s) => s,
            None => fallback,
        },
    }
}

/// The value if present, else `fallback`.
pub open spec fn or_default<T>(o: Option<T>, fallback: T) -> T {
    match o {
        Some(v) => v,
        None => fallback,
    }
}

impl Config {
    /// `self` is what merging `file` under the overrides of `cli` gives:
    /// the command line wins over the file, the file over the defaults, and
    /// auth is on exactly when the file names an auth database.
    pub open spec fn resolved_from(self, file: FileConfig, cli: Cli) -> bool {
        &&& self.listen_http@ == first_present(
            opt_view(cli.listen_http),
            opt_view(file.listen_http),
            DEFAULT_LISTEN_HTTP@,
        )
        &&& self.base_url@ == first_present(
            opt_view(cli.base_url),
            opt_view(file.base_url),
            Seq::<char>::empty(),
        )
        &&& opt_view(self.cache_file) == (match cli.cache_file {
            Some(c) => Some(c@),
            None => opt_view(file.cache_file),
        })
        &&& self.cache_duration_secs == or_default(file.cache_duration, DEFAULT_CACHE_DURATION_SECS)
        &&& self.message_size_limit == or_default(
            file.message_size_limit,
            DEFAULT_MESSAGE_SIZE_LIMIT,
        )
        &&& self.request_limit_burst == or_default(
            file.request_limit_burst,
            DEFAULT_REQUEST_LIMIT_BURST,
        )
        &&& self.request_limit_replenish_secs == or_default(
            file.request_limit_replenish,
            DEFAULT_REQUEST_LIMIT_REPLENISH_SECS,
        )
        &&& self.subscription_limit == or_default(
            file.subscription_limit,
            DEFAULT_SUBSCRIPTION_LIMIT,
        )
        &&& self.keepalive_secs == or_default(file.keepalive_interval, DEFAULT_KEEPALIVE_SECS)
        &&& self.manager_interval_secs == or_default(
            file.manager_interval,
            DEFAULT_MANAGER_INTERVAL_SECS,
        )
        &&& self.auth_enabled == (file.auth_file is Some)
        &&& opt_view(self.auth_file) == opt_view(file.auth_file)
        &&& self.default_access == or_default(file.default_access, DefaultAccess::ReadWrite)
    }

    /// Build a resolved configuration by merging the file configuration with
    /// the command-line overrides.
    pub fn resolve(file: FileConfig, cli: &Cli) -> (c: Self)
        ensures
            c.resolved_from(file, *cli),
    {
        let listen_http = match &cli.listen_http {
            Some(s) => s.clone(),
            None => match file.listen_http {
                Some(s) => s,
                None => to_owned_string(DEFAULT_LISTEN_HTTP),
            },
        };
        let base_url = match &cli.base_url {
            Some(s) => s.clone(),
            None => match file.base_url {
                Some(s) => s,
                None => String::new(),
            },
        };
        let cache_file = match &cli.cache_file {
            Some(s) => Some(s.clone()),
            None => file.cache_file,
        };
        let auth_enabled = file.auth_file.is_some();
        let auth_file = file.auth_file;
        Config {
            listen_http,
            base_url,
            cache_file,
            cache_duration_secs: match file.cache_duration {
                Some(v) => v,
                None => DEFAULT_CACHE_DURATION_SECS,
            },
            message_size_limit: match file.message_size_limit {
                Some(v) => v,
                None => DEFAULT_MESSAGE_SIZE_LIMIT,
            },
            request_limit_burst: match file.request_limit_burst {
                Some(v) => v,
                None => DEFAULT_REQUEST_LIMIT_BURST,
            },
            request_limit_replenish_secs: match file.request_limit_replenish {
                Some(v) => v,
                None => DEFAULT_REQUEST_LIMIT_REPLENISH_SECS,
            },
            subscription_limit: match file.subscription_limit {
                Some(v) => v,
                None => DEFAULT_SUBSCRIPTION_LIMIT,
            },
            keepalive_secs: match file.keepalive_interval {
                Some(v) => v,
                None => DEFAULT_KEEPALIVE_SECS,
            },
            manager_interval_secs: match file.manager_interval {
                Some(v) => v,
                None => DEFAULT_MANAGER_INTERVAL_SECS,
            },
            auth_enabled,
            auth_file,
            default_access: match file.default_access {
                Some(a) => a,
                None => DefaultAccess::ReadWrite,
            },
        }
    }
}

/// The listen address with the ":port" shorthand made explicit:
/// ":2586" becomes "0.0.0.0:2586"; any other text is kept as it is.
pub open spec fn normalised_listen_addr(s: Seq<char>) -> Seq<char> {
    if starts_with_spec(s, seq![':']) {
        "0.0.0.0"@ + s
    } else {
        s
    }
}

/// Expand the ":port" shorthand of a listen address to "0.0.0.0:port".
pub fn normalise_listen_addr(s: &str) -> (r: String)
    ensures
        r@ == normalised_listen_addr(s@),
{
    let v = crate::text::chars_of(s);
    if v.len() > 0 && v[0] == ':' {
        proof {
            assert(s@.take(1) =~= seq![':']);
        }
        let mut r = to_owned_string("0.0.0.0");
        let mut i: usize = 0;
        let ghost prefix = r@;
        while i < v.len()
            invariant
                v@ == s@,
                i <= v.len(),
                r@ == prefix + v@.take(i as int),
            decreases v.len() - i,
        {
            r.push(v[i]);
            i = i + 1;
            assert(r@ =~= prefix + v@.take(i as int));
        }
        assert(v@.take(v.len() as int) =~= v@);
        r
    } else {
        proof {
            if s@.len() > 0 {
                assert(s@.take(1)[0] != ':');
            }
        }
        to_owned_string(s)
    }
}

/// The command line overrides the configuration file, which overrides the
/// defaults: a listen address, base URL or cache file given on the command
/// line is the resolved one; otherwise the file's; otherwise the default.
/// Every other setting is the file's, else its default, and auth is on
/// exactly when the file names an auth database.
pub proof fn lemma_command_line_over_file_over_defaults(c: Config, file: FileConfig, cli: Cli)
    requires
        c.resolved_from(file, cli),
    ensures
        cli.listen_http matches Some(x) ==> c.listen_http@ == x@,
        cli.listen_http is None ==> (file.listen_http matches Some(x) ==> c.listen_http@ == x@),
        cli.listen_http is None && file.listen_http is None ==> c.listen_http@
            == DEFAULT_LISTEN_HTTP@,
        cli.base_url matches Some(x) ==> c.base_url@ == x@,
        cli.base_url is None ==> (file.base_url matches Some(x) ==> c.base_url@ == x@),
        cli.base_url is None && file.base_url is None ==> c.base_url@.len() == 0,
        cli.cache_file matches Some(x) ==> (c.cache_file matches Some(y) && y@ == x@),
        cli.cache_file is None ==> (file.cache_file matches Some(x) ==> (c.cache_file matches Some(
            y,
        ) && y@ == x@)),
        cli.cache_file is None && file.cache_file is None ==> c.cache_file is None,
        file.cache_duration matches Some(d) ==> c.cache_duration_secs == d,
        file.cache_duration is None ==> c.cache_duration_secs == 43200,
        file.message_size_limit matches Some(d) ==> c.message_size_limit == d,
        file.message_size_limit is None ==> c.message_size_limit == 4096,
        c.auth_enabled <==> file.auth_file is Some,
        file.default_access matches Some(a) ==> c.default_access == a,
        file.default_access is None ==> c.default_access == DefaultAccess::ReadWrite,
{
}

} // verus!
