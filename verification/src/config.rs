//! The program's configuration, built from its config file, command line options, program store
//! and environment, each overriding what came before.
use crate::settings::limit::Limit;
use crate::settings::network::SocketAddress;
use crate::text::{chars_starts_with, str_equal, str_to_chars};
use vstd::prelude::*;
use vstd::string::StringExecFns;

verus! {

/// The config file read unless told otherwise.
pub const DEFAULT_CONFIG_FILE_LOCATION: &'static str = "modtorio.toml";
/// The program store read unless told otherwise.
pub const DEFAULT_STORE_FILE_LOCATION: &'static str = "modtorio.db";
/// How long, in seconds, stored mod information stays valid unless told otherwise.
pub const DEFAULT_STORE_EXPIRY: u64 = 3600;
/// The prefix that marks a Unix socket path among the listen addresses.
pub const UNIX_SOCKET_PREFIX: &'static str = "unix:";

/// How much the program logs.
#[derive(Clone, Copy, Debug, PartialEq, Eq, Structural)]
pub enum LogLevel {
    /// Nothing.
    Off,
    /// Errors.
    Error,
    /// Warnings and errors.
    Warn,
    /// Information, warnings and errors.
    Info,
    /// Debug messages and everything above.
    Debug,
    /// Everything.
    Trace,
}

impl Default for LogLevel {
    fn default() -> (r: Self)
        ensures
            r == LogLevel::Info,
    {
        LogLevel::Info
    }
}

/// The log level a name in the config file stands for: the lower-case name of a level, or the
/// empty name of a missing setting, which stands for the default level.
pub open spec fn log_level_of(s: Seq<char>) -> Option<LogLevel> {
    if s.len() == 0 {
        Some(LogLevel::Info)
    } else if s == "off"@ {
        Some(LogLevel::Off)
    } else if s == "error"@ {
        Some(LogLevel::Error)
    } else if s == "warn"@ {
        Some(LogLevel::Warn)
    } else if s == "info"@ {
        Some(LogLevel::Info)
    } else if s == "debug"@ {
        Some(LogLevel::Debug)
    } else if s == "trace"@ {
        Some(LogLevel::Trace)
    } else {
        None
    }
}

/// Each log level is named in lower case in the config file, a missing (empty) name stands for
/// the default level, and no other name stands for a level.
pub proof fn law_log_level_names(s: Seq<char>)
    ensures
        log_level_of("off"@) == Some(LogLevel::Off),
        log_level_of("error"@) == Some(LogLevel::Error),
        log_level_of("warn"@) == Some(LogLevel::Warn),
        log_level_of("info"@) == Some(LogLevel::Info),
        log_level_of("debug"@) == Some(LogLevel::Debug),
        log_level_of("trace"@) == Some(LogLevel::Trace),
        log_level_of(Seq::empty()) == Some(LogLevel::Info),
        log_level_of(s) is Some ==> s.len() == 0 || s == "off"@ || s == "error"@ || s == "warn"@
            || s == "info"@ || s == "debug"@ || s == "trace"@,
{
    reveal_strlit("off");
    reveal_strlit("error");
    reveal_strlit("warn");
    reveal_strlit("info");
    reveal_strlit("debug");
    reveal_strlit("trace");
    assert("off"@.len() == 3 && "off"@[0] == 'o');
    assert("error"@.len() == 5 && "error"@[0] == 'e');
    assert("warn"@.len() == 4 && "warn"@[0] == 'w');
    assert("info"@.len() == 4 && "info"@[0] == 'i');
    assert("debug"@.len() == 5 && "debug"@[0] == 'd');
    assert("trace"@.len() == 5 && "trace"@[0] == 't');
}

impl LogLevel {
    /// The log level a name in the config file stands for; `None` for a name of no level.
    pub fn from_name(s: &str) -> (r: Option<LogLevel>)
        ensures
            r == log_level_of(s@),
    {
        proof {
            reveal_strlit("");
            assert(s@.len() == 0 ==> s@ =~= ""@);
        }
        if str_equal(s, "") {
            Some(LogLevel::Info)
        } else if str_equal(s, "off") {
            Some(LogLevel::Off)
        } else if str_equal(s, "error") {
            Some(LogLevel::Error)
        } else if str_equal(s, "warn") {
            Some(LogLevel::Warn)
        } else if str_equal(s, "info") {
            Some(LogLevel::Info)
        } else if str_equal(s, "debug") {
            Some(LogLevel::Debug)
        } else if str_equal(s, "trace") {
            Some(LogLevel::Trace)
        } else {
            None
        }
    }
}

/// An address the program listens on.
#[derive(Debug)]
pub enum NetAddress {
    /// A TCP socket address.
    Tcp(SocketAddress),
    /// A Unix socket's path.
    Unix(String),
}

/// The meaning of a [`NetAddress`].
pub enum NetAddressView {
    Tcp(SocketAddress),
    Unix(Seq<char>),
}

impl View for NetAddress {
    type V = NetAddressView;

    open spec fn view(&self) -> NetAddressView {
        match self {
            NetAddress::Tcp(a) => NetAddressView::Tcp(*a),
            NetAddress::Unix(p) => NetAddressView::Unix(p@),
        }
    }
}

/// Whether an address text starts with the Unix socket prefix.
pub open spec fn has_unix_prefix(s: Seq<char>) -> bool {
    s.len() >= UNIX_SOCKET_PREFIX@.len() && s.take(UNIX_SOCKET_PREFIX@.len() as int)
        == UNIX_SOCKET_PREFIX@
}

impl NetAddress {
    /// The Unix socket path that an address text names, if it names one: the text after the
    /// `unix:` prefix. Any other text is a TCP socket address.
    pub fn unix_path(s: &str) -> (r: Option<String>)
        ensures
            has_unix_prefix(s@) ==> (r matches Some(p) && p@ == s@.skip(
                UNIX_SOCKET_PREFIX@.len() as int,
            )),
            !has_unix_prefix(s@) ==> r is None,
    {
        let chars = str_to_chars(s);
        let prefix = str_to_chars(UNIX_SOCKET_PREFIX);
        if chars_starts_with(&chars, &prefix) {
            Some(crate::text::span_string(s, prefix.len(), chars.len()))
        } else {
            None
        }
    }

    /// The text of a Unix socket address: the prefix and the path.
    pub fn unix_text(path: &str) -> (r: String)
        ensures
            r@ == UNIX_SOCKET_PREFIX@ + path@,
    {
        let mut out = String::from_str(UNIX_SOCKET_PREFIX);
        out.append(path);
        out
    }
}

/// The text of a Unix socket address reads back as its path.
pub proof fn law_unix_text_roundtrip(path: Seq<char>)
    ensures
        has_unix_prefix(UNIX_SOCKET_PREFIX@ + path),
        (UNIX_SOCKET_PREFIX@ + path).skip(UNIX_SOCKET_PREFIX@.len() as int) == path,
{
    let t = UNIX_SOCKET_PREFIX@ + path;
    assert(t.take(UNIX_SOCKET_PREFIX@.len() as int) =~= UNIX_SOCKET_PREFIX@);
    assert(t.skip(UNIX_SOCKET_PREFIX@.len() as int) =~= path);
}

/// The program's configuration.
#[derive(Debug)]
pub struct Config {
    log_level: LogLevel,
    portal_page_size: Limit,
    portal_username: String,
    portal_token: String,
    store_expiry: u64,
    listen: Vec<NetAddress>,
}

/// The meaning of a [`Config`].
pub struct ConfigView {
    pub log_level: LogLevel,
    pub portal_page_size: Limit,
    pub portal_username: Seq<char>,
    pub portal_token: Seq<char>,
    pub store_expiry: u64,
    pub listen: Seq<NetAddressView>,
}

/// The meanings of a list of addresses.
pub open spec fn address_views(s: Seq<NetAddress>) -> Seq<NetAddressView> {
    s.map_values(|a: NetAddress| a@)
}

impl View for Config {
    type V = ConfigView;

    closed spec fn view(&self) -> ConfigView {
        ConfigView {
            log_level: self.log_level,
            portal_page_size: self.portal_page_size,
            portal_username: self.portal_username@,
            portal_token: self.portal_token@,
            store_expiry: self.store_expiry,
            listen: address_views(self.listen@),
        }
    }
}

/// The configuration before any source is applied.
pub open spec fn default_config() -> ConfigView {
    ConfigView {
        log_level: LogLevel::Info,
        portal_page_size: Limit::Unlimited,
        portal_username: Seq::empty(),
        portal_token: Seq::empty(),
        store_expiry: 0,
        listen: Seq::empty(),
    }
}

impl Default for Config {
    fn default() -> (r: Self)
        ensures
            r@ == default_config(),
    {
        let r = Config {
            log_level: LogLevel::Info,
            portal_page_size: Limit::Unlimited,
            portal_username: String::new(),
            portal_token: String::new(),
            store_expiry: 0,
            listen: Vec::new(),
        };
        assert(address_views(r.listen@) =~= Seq::empty());
        r
    }
}

impl Config {
    /// How much the program logs.
    pub fn log_level(&self) -> (r: LogLevel)
        ensures
            r == self@.log_level,
    {
        self.log_level
    }

    /// The page size of mod portal requests.
    pub fn portal_page_size(&self) -> (r: Limit)
        ensures
            r == self@.portal_page_size,
    {
        self.portal_page_size
    }

    /// The mod portal username.
    pub fn portal_username(&self) -> (r: &str)
        ensures
            r@ == self@.portal_username,
    {
        self.portal_username.as_str()
    }

    /// The mod portal token.
    pub fn portal_token(&self) -> (r: &str)
        ensures
            r@ == self@.portal_token,
    {
        self.portal_token.as_str()
    }

    /// How long, in seconds, stored mod information stays valid.
    pub fn store_expiry(&self) -> (r: u64)
        ensures
            r == self@.store_expiry,
    {
        self.store_expiry
    }

    /// The addresses the program listens on.
    pub fn listen(&self) -> (r: &Vec<NetAddress>)
        ensures
            address_views(r@) == self@.listen,
    {
        &self.listen
    }
}

/// A source of configuration values that overrides some of the configuration.
pub trait ConfigSource where Self: Sized {
    /// The configuration with this source's values applied.
    fn apply_to_config(self, config: Config) -> Config;
}

/// The `[debug]` table of the config file.
#[derive(Debug)]
pub struct DebugOptions {
    /// How much the program logs.
    pub log_level: LogLevel,
    /// The page size of mod portal requests.
    pub portal_page_size: Limit,
}

/// The `[store]` table of the config file.
#[derive(Debug)]
pub struct CacheOptions {
    /// How long, in seconds, stored mod information stays valid. Defaults to an hour.
    pub expiry: u64,
}

/// The `[network]` table of the config file.
#[derive(Debug)]
pub struct NetworkOptions {
    /// The addresses the program listens on.
    pub listen: Vec<NetAddress>,
}

/// The configuration values of the config file.
#[derive(Debug)]
pub struct FileConfig {
    /// The `[debug]` table.
    pub debug: DebugOptions,
    /// The `[store]` table.
    pub store: CacheOptions,
    /// The `[network]` table.
    pub network: NetworkOptions,
}

impl Default for CacheOptions {
    fn default() -> (r: Self)
        ensures
            r.expiry == DEFAULT_STORE_EXPIRY,
    {
        CacheOptions { expiry: DEFAULT_STORE_EXPIRY }
    }
}

/// The configuration values of the command line options.
#[derive(Clone, Copy, Debug)]
pub struct OptsConfig {
    /// How much the program logs, if given.
    pub log_level: Option<LogLevel>,
    /// How long stored mod information stays valid, if given.
    pub store_expiry: Option<u64>,
}

/// The configuration values of the environment variables.
#[derive(Debug)]
pub struct EnvConfig {
    /// The mod portal username, if given.
    pub portal_username: Option<String>,
    /// The mod portal token, if given.
    pub portal_token: Option<String>,
}

/// The configuration values of the program store.
#[derive(Debug)]
pub struct StoreConfig {
    /// The mod portal username, if stored.
    pub portal_username: Option<String>,
    /// The mod portal token, if stored.
    pub portal_token: Option<String>,
}

/// The value given, if any, else the one before.
pub open spec fn given_or<T>(v: Option<T>, before: T) -> T {
    match v {
        Some(x) => x,
        None => before,
    }
}

/// The text of an optional string.
pub open spec fn opt_chars(s: Option<String>) -> Option<Seq<char>> {
    match s {
        Some(t) => Some(t@),
        None => None,
    }
}

/// The configuration with the config file's values: its log level, portal page size, store
/// expiry and listen addresses replace those before.
pub open spec fn with_file(c: ConfigView, f: FileConfig) -> ConfigView {
    ConfigView {
        log_level: f.debug.log_level,
        portal_page_size: f.debug.portal_page_size,
        store_expiry: f.store.expiry,
        listen: address_views(f.network.listen@),
        ..c
    }
}

/// The configuration with the command line options' values: each one given replaces the one
/// before.
pub open spec fn with_opts(c: ConfigView, o: OptsConfig) -> ConfigView {
    ConfigView {
        log_level: given_or(o.log_level, c.log_level),
        store_expiry: given_or(o.store_expiry, c.store_expiry),
        ..c
    }
}

/// The configuration with portal credentials: each one given replaces the one before.
pub open spec fn with_credentials(
    c: ConfigView,
    username: Option<Seq<char>>,
    token: Option<Seq<char>>,
) -> ConfigView {
    ConfigView {
        portal_username: given_or(username, c.portal_username),
        portal_token: given_or(token, c.portal_token),
        ..c
    }
}

impl ConfigSource for FileConfig {
    fn apply_to_config(self, config: Config) -> (r: Config)
        ensures
            r@ == with_file(config@, self),
    {
        Config {
            log_level: self.debug.log_level,
            portal_page_size: self.debug.portal_page_size,
            store_expiry: self.store.expiry,
            listen: self.network.listen,
            ..config
        }
    }
}

impl ConfigSource for OptsConfig {
    fn apply_to_config(self, config: Config) -> (r: Config)
        ensures
            r@ == with_opts(config@, self),
    {
        Config {
            log_level: match self.log_level {
                Some(l) => l,
                None => config.log_level,
            },
            store_expiry: match self.store_expiry {
                Some(e) => e,
                None => config.store_expiry,
            },
            ..config
        }
    }
}

/// The configuration with portal credentials applied.
fn apply_credentials(config: Config, username: Option<String>, token: Option<String>) -> (r: Config)
    ensures
        r@ == with_credentials(config@, opt_chars(username), opt_chars(token)),
{
    Config {
        portal_username: match username {
            Some(u) => u,
            None => config.portal_username,
        },
        portal_token: match token {
            Some(t) => t,
            None => config.portal_token,
        },
        ..config
    }
}

impl ConfigSource for EnvConfig {
    fn apply_to_config(self, config: Config) -> (r: Config)
        ensures
            r@ == with_credentials(config@, opt_chars(self.portal_username), opt_chars(self.portal_token)),
    {
        apply_credentials(config, self.portal_username, self.portal_token)
    }
}

impl ConfigSource for StoreConfig {
    fn apply_to_config(self, config: Config) -> (r: Config)
        ensures
            r@ == with_credentials(config@, opt_chars(self.portal_username), opt_chars(self.portal_token)),
    {
        apply_credentials(config, self.portal_username, self.portal_token)
    }
}

impl OptsConfig {
    /// The configuration values of the command line options: the log level and store expiry
    /// given, if any.
    pub fn new(log_level: Option<LogLevel>, store_expiry: Option<u64>) -> (r: Self)
        ensures
            r.log_level == log_level,
            r.store_expiry == store_expiry,
    {
        OptsConfig { log_level, store_expiry }
    }
}

/// A builder of the configuration that applies sources in turn.
#[derive(Debug)]
pub struct Builder {
    config: Config,
}

impl View for Builder {
    type V = ConfigView;

    closed spec fn view(&self) -> ConfigView {
        self.config@
    }
}

impl Builder {
    /// A builder of the default configuration.
    pub fn new() -> (r: Self)
        ensures
            r@ == default_config(),
    {
        Builder { config: Config::default() }
    }

    /// Applies the config file's values.
    pub fn apply_config_file(self, file: FileConfig) -> (r: Self)
        ensures
            r@ == with_file(self@, file),
    {
        Builder { config: file.apply_to_config(self.config) }
    }

    /// Applies the command line options' values.
    pub fn apply_opts(self, opts: OptsConfig) -> (r: Self)
        ensures
            r@ == with_opts(self@, opts),
    {
        Builder { config: opts.apply_to_config(self.config) }
    }

    /// Applies the program store's values.
    pub fn apply_store(self, store: StoreConfig) -> (r: Self)
        ensures
            r@ == with_credentials(self@, opt_chars(store.portal_username), opt_chars(store.portal_token)),
    {
        Builder { config: store.apply_to_config(self.config) }
    }

    /// Applies the environment's values.
    pub fn apply_env(self, env: EnvConfig) -> (r: Self)
        ensures
            r@ == with_credentials(self@, opt_chars(env.portal_username), opt_chars(env.portal_token)),
    {
        Builder { config: env.apply_to_config(self.config) }
    }

    /// The built configuration.
    pub fn build(self) -> (r: Config)
        ensures
            r@ == self@,
    {
        self.config
    }
}

/// The environment variable that holds the mod portal username.
pub const PORTAL_USERNAME_ENV_VARIABLE: &'static str = "MODTORIO_PORTAL_USERNAME";
/// The environment variable that holds the mod portal token.
pub const PORTAL_TOKEN_ENV_VARIABLE: &'static str = "MODTORIO_PORTAL_TOKEN";

/// An option that the program store holds.
#[derive(Clone, Copy, Debug, PartialEq, Eq, Structural)]
pub enum StoreOptionField {
    /// The mod portal username.
    PortalUsername,
    /// The mod portal token.
    PortalToken,
}

/// The store option that an environment variable sets, if any.
pub open spec fn option_of_env(key: Seq<char>) -> Option<StoreOptionField> {
    if key == PORTAL_USERNAME_ENV_VARIABLE@ {
        Some(StoreOptionField::PortalUsername)
    } else if key == PORTAL_TOKEN_ENV_VARIABLE@ {
        Some(StoreOptionField::PortalToken)
    } else {
        None
    }
}

/// The store options that the first `n` environment variables set, with their values, in order.
pub open spec fn env_updates_upto(vars: Seq<(String, String)>, n: int) -> Seq<(StoreOptionField, Seq<char>)>
    decreases n,
{
    if n <= 0 {
        Seq::empty()
    } else {
        let rest = env_updates_upto(vars, n - 1);
        match option_of_env(vars[n - 1].0@) {
            Some(f) => rest.push((f, vars[n - 1].1@)),
            None => rest,
        }
    }
}

/// The store options that the environment variables set, with their values, in the order of the
/// variables: the portal username and token from their variables; other variables set nothing.
pub fn store_updates_from_env(vars: &Vec<(String, String)>) -> (r: Vec<(StoreOptionField, String)>)
    ensures
        r@.map_values(|u: (StoreOptionField, String)| (u.0, u.1@)) == env_updates_upto(
            vars@,
            vars@.len() as int,
        ),
{
    let mut out: Vec<(StoreOptionField, String)> = Vec::new();
    let mut j: usize = 0;
    assert(out@.map_values(|u: (StoreOptionField, String)| (u.0, u.1@)) =~= Seq::<
        (StoreOptionField, Seq<char>),
    >::empty());
    while j < vars.len()
        invariant
            j <= vars.len(),
            out@.map_values(|u: (StoreOptionField, String)| (u.0, u.1@)) == env_updates_upto(
                vars@,
                j as int,
            ),
        decreases vars.len() - j,
    {
        let key = vars[j].0.as_str();
        let field = if str_equal(key, PORTAL_USERNAME_ENV_VARIABLE) {
            Some(StoreOptionField::PortalUsername)
        } else if str_equal(key, PORTAL_TOKEN_ENV_VARIABLE) {
            Some(StoreOptionField::PortalToken)
        } else {
            None
        };
        match field {
            Some(f) => {
                let ghost before = out@;
                out.push((f, vars[j].1.clone()));
                assert(out@.map_values(|u: (StoreOptionField, String)| (u.0, u.1@)) =~= before.map_values(
                    |u: (StoreOptionField, String)| (u.0, u.1@),
                ).push((f, vars@[j as int].1@)));
            },
            None => {},
        }
        j = j + 1;
    }
    out
}

/// Built from the config file, the command line options, the program store and the environment
/// in that order, the configuration takes each value from the last source that gives it: the
/// log level and store expiry from the options where given, else from the file; the portal
/// credentials from the environment where given, else from the store where stored, else empty;
/// the page size and listen addresses from the file.
pub proof fn law_config_precedence(
    file: FileConfig,
    opts: OptsConfig,
    store: StoreConfig,
    env: EnvConfig,
)
    ensures
        ({
            let c = with_credentials(
                with_credentials(
                    with_opts(with_file(default_config(), file), opts),
                    opt_chars(store.portal_username),
                    opt_chars(store.portal_token),
                ),
                opt_chars(env.portal_username),
                opt_chars(env.portal_token),
            );
            &&& c.log_level == given_or(opts.log_level, file.debug.log_level)
            &&& c.store_expiry == given_or(opts.store_expiry, file.store.expiry)
            &&& c.portal_page_size == file.debug.portal_page_size
            &&& c.listen == address_views(file.network.listen@)
            &&& c.portal_username == given_or(
                opt_chars(env.portal_username),
                given_or(opt_chars(store.portal_username), Seq::empty()),
            )
            &&& c.portal_token == given_or(
                opt_chars(env.portal_token),
                given_or(opt_chars(store.portal_token), Seq::empty()),
            )
        }),
{
}

} // verus!
