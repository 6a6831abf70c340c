//! The proxy's fixed settings, and the application settings file's location
//! and contents.
use vstd::prelude::*;
use vstd::string::StringExecFns;
use crate::inject::RELAY_TIMEOUT_MS;

verus! {

/// Budget, in seconds, for connecting upstream and receiving the response
/// headers.
pub const CONNECT_TIMEOUT_SECS: u64 = 30;

/// Budget, in seconds, for the pause between two body chunks once streaming
/// has begun. There is no overall limit on a stream.
pub const INACTIVITY_TIMEOUT_SECS: u64 = 590;

/// How long, in seconds, an idle pooled upstream connection is kept; longer
/// than the inactivity budget, so that a legitimate pause does not evict a
/// warm connection.
pub const POOL_IDLE_SECS: u64 = 600;

/// Idle upstream connections kept per host.
pub const MAX_IDLE_PER_HOST: usize = 10;

/// Settings of one proxy, fixed for the life of the process.
pub struct ProxyConfig {
    listen_port: u16,
    upstream_port: u16,
    log_sink: String,
    connect_timeout_secs: u64,
    inactivity_timeout_secs: u64,
}

/// Whether the budgets are ordered as the proxy needs: a short connect budget
/// below the long inactivity budget, which stays below the pool's idle window
/// and below the page's relay timeout, so that an upstream stall surfaces
/// from the proxy before the page gives up.
pub open spec fn budgets_ordered(connect_secs: u64, inactivity_secs: u64) -> bool {
    0 < connect_secs < inactivity_secs && inactivity_secs < POOL_IDLE_SECS && inactivity_secs * 1000
        < RELAY_TIMEOUT_MS
}

impl ProxyConfig {
    pub closed spec fn spec_listen_port(self) -> u16 {
        self.listen_port
    }

    pub closed spec fn spec_upstream_port(self) -> u16 {
        self.upstream_port
    }

    pub closed spec fn spec_log_sink(self) -> Seq<char> {
        self.log_sink@
    }

    pub closed spec fn spec_connect_timeout_secs(self) -> u64 {
        self.connect_timeout_secs
    }

    pub closed spec fn spec_inactivity_timeout_secs(self) -> u64 {
        self.inactivity_timeout_secs
    }

    /// Every configuration keeps its budgets ordered.
    pub open spec fn wf(self) -> bool {
        budgets_ordered(self.spec_connect_timeout_secs(), self.spec_inactivity_timeout_secs())
    }

    /// A proxy listening on loopback port `listen_port`, forwarding to
    /// loopback port `upstream_port` and logging to the file `log_sink`,
    /// with the default budgets.
    pub fn new(listen_port: u16, upstream_port: u16, log_sink: String) -> (r: ProxyConfig)
        ensures
            r.wf(),
            r.spec_listen_port() == listen_port,
            r.spec_upstream_port() == upstream_port,
            r.spec_log_sink() == log_sink@,
            r.spec_connect_timeout_secs() == CONNECT_TIMEOUT_SECS,
            r.spec_inactivity_timeout_secs() == INACTIVITY_TIMEOUT_SECS,
    {
        ProxyConfig {
            listen_port,
            upstream_port,
            log_sink,
            connect_timeout_secs: CONNECT_TIMEOUT_SECS,
            inactivity_timeout_secs: INACTIVITY_TIMEOUT_SECS,
        }
    }

    /// The same proxy with other budgets; `None` unless they are ordered as
    /// [`budgets_ordered`] says.
    pub fn with_timeouts(self, connect_secs: u64, inactivity_secs: u64) -> (r: Option<ProxyConfig>)
        ensures
            r is Some <==> budgets_ordered(connect_secs, inactivity_secs),
            r matches Some(c) ==> c.wf() && c.spec_listen_port() == self.spec_listen_port()
                && c.spec_upstream_port() == self.spec_upstream_port() && c.spec_log_sink()
                == self.spec_log_sink() && c.spec_connect_timeout_secs() == connect_secs
                && c.spec_inactivity_timeout_secs() == inactivity_secs,
    {
        if 0 < connect_secs && connect_secs < inactivity_secs && inactivity_secs < POOL_IDLE_SECS
            && inactivity_secs < RELAY_TIMEOUT_MS / 1000 {
            Some(
                ProxyConfig {
                    connect_timeout_secs: connect_secs,
                    inactivity_timeout_secs: inactivity_secs,
                    ..self
                },
            )
        } else {
            None
        }
    }

    pub fn listen_port(&self) -> (r: u16)
        ensures
            r == self.spec_listen_port(),
    {
        self.listen_port
    }

    pub fn upstream_port(&self) -> (r: u16)
        ensures
            r == self.spec_upstream_port(),
    {
        self.upstream_port
    }

    pub fn log_sink(&self) -> (r: &str)
        ensures
            r@ == self.spec_log_sink(),
    {
        self.log_sink.as_str()
    }

    pub fn connect_timeout_secs(&self) -> (r: u64)
        ensures
            r == self.spec_connect_timeout_secs(),
    {
        self.connect_timeout_secs
    }

    pub fn inactivity_timeout_secs(&self) -> (r: u64)
        ensures
            r == self.spec_inactivity_timeout_secs(),
    {
        self.inactivity_timeout_secs
    }
}

/// The application's settings: the model provider keys handed to the local
/// service. A key that the settings file leaves out is `None`.
#[derive(Clone, Debug)]
pub struct AppConfig {
    pub anthropic_api_key: Option<String>,
    pub openai_api_key: Option<String>,
}

impl Default for AppConfig {
    /// Settings with no key, used when the file is missing or unreadable.
    fn default() -> (r: AppConfig)
        ensures
            r.anthropic_api_key is None,
            r.openai_api_key is None,
    {
        AppConfig { anthropic_api_key: None, openai_api_key: None }
    }
}

/// `base` joined with the relative path `rel`: a separator is put between
/// them unless `base` is empty or already ends with one.
pub open spec fn join_path(base: Seq<char>, rel: Seq<char>) -> Seq<char> {
    if base.len() == 0 || base.last() == '/' {
        base + rel
    } else {
        base + "/"@ + rel
    }
}

/// The settings directory under the home directory `home`.
pub open spec fn config_dir_in(home: Seq<char>) -> Seq<char> {
    join_path(home, "Library/Application Support/Langston Studio"@)
}

/// The settings file under the home directory `home`.
pub open spec fn config_path_in(home: Seq<char>) -> Seq<char> {
    join_path(config_dir_in(home), "config.json"@)
}

/// Joins `base` and the relative path `rel`.
fn join(base: &str, rel: &str) -> (r: String)
    ensures
        r@ == join_path(base@, rel@),
{
    let mut out = base.to_owned();
    let n = base.unicode_len();
    if n == 0 || base.get_char(n - 1) == '/' {
        out.append(rel);
    } else {
        out.append("/");
        out.append(rel);
    }
    out
}

/// The settings directory under the home directory `home`.
pub fn config_dir_under(home: &str) -> (r: String)
    ensures
        r@ == config_dir_in(home@),
{
    join(home, "Library/Application Support/Langston Studio")
}

/// The settings file under the home directory `home`.
pub fn config_path_under(home: &str) -> (r: String)
    ensures
        r@ == config_path_in(home@),
{
    let dir = config_dir_under(home);
    join(dir.as_str(), "config.json")
}

/// Relies on `dirs::home_dir`: the current user's home directory, when the
/// platform reports one; `None` too when it is not valid UTF-8.
#[verifier::external_body]
fn home_dir() -> (r: Option<String>) {
    dirs::home_dir().and_then(|p| p.to_str().map(str::to_owned))
}

/// The settings file of the current user; `None` when there is no home
/// directory to put it in.
pub fn get_config_path() -> (r: Option<String>)
    ensures
        r matches Some(p) ==> exists|home: Seq<char>| p@ == config_path_in(home),
{
    match home_dir() {
        Some(home) => Some(config_path_under(home.as_str())),
        None => None,
    }
}

} // verus!
