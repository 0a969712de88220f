//! The client's configuration: signaling servers with priorities, the
//! address of a remote configuration center, and the rules that pick the
//! servers to try and decide what configuration is in force.
use vstd::prelude::*;
use vstd::string::*;

use crate::signaling::messages::{clone_opt, opt_view};

verus! {

/// One signaling server the client may use.
#[derive(Debug, PartialEq, Eq)]
pub struct ServerConfig {
    pub url: String,
    /// Lower values are tried first.
    pub priority: u8,
    pub enabled: bool,
}

/// A signaling server entry, with its address taken by its characters.
pub struct ServerConfigView {
    pub url: Seq<char>,
    pub priority: u8,
    pub enabled: bool,
}

impl View for ServerConfig {
    type V = ServerConfigView;

    open spec fn view(&self) -> ServerConfigView {
        ServerConfigView { url: self.url@, priority: self.priority, enabled: self.enabled }
    }
}

impl Clone for ServerConfig {
    fn clone(&self) -> (r: Self)
        ensures
            r@ == self@,
    {
        ServerConfig { url: self.url.clone(), priority: self.priority, enabled: self.enabled }
    }
}

/// The whole client configuration.
#[derive(Debug, PartialEq, Eq)]
pub struct AppConfig {
    pub version: String,
    pub signaling_servers: Vec<ServerConfig>,
    pub config_center_url: Option<String>,
    pub last_updated: Option<String>,
}

/// The configuration, with its strings taken by their characters.
pub struct AppConfigView {
    pub version: Seq<char>,
    pub signaling_servers: Seq<ServerConfigView>,
    pub config_center_url: Option<Seq<char>>,
    pub last_updated: Option<Seq<char>>,
}

/// The entries of `v`, each taken by its view.
pub open spec fn servers_view(v: Seq<ServerConfig>) -> Seq<ServerConfigView> {
    v.map_values(|s: ServerConfig| s@)
}

impl View for AppConfig {
    type V = AppConfigView;

    open spec fn view(&self) -> AppConfigView {
        AppConfigView {
            version: self.version@,
            signaling_servers: servers_view(self.signaling_servers@),
            config_center_url: opt_view(self.config_center_url),
            last_updated: opt_view(self.last_updated),
        }
    }
}

/// Copies a list of server entries.
fn clone_servers(v: &Vec<ServerConfig>) -> (r: Vec<ServerConfig>)
    ensures
        servers_view(r@) == servers_view(v@),
{
    let mut r: Vec<ServerConfig> = Vec::new();
    let mut i: usize = 0;
    while i < v.len()
        invariant
            i <= v@.len(),
            servers_view(r@) == servers_view(v@.take(i as int)),
        decreases v@.len() - i,
    {
        let c = v[i].clone();
        assert(c@ == v@[i as int]@);
        let ghost r0 = r@;
        r.push(c);
        proof {
            assert(r@ == r0.push(c));
            assert(v@.take(i + 1) =~= v@.take(i as int).push(v@[i as int]));
            assert(servers_view(r@) =~= servers_view(r0).push(c@));
            assert(servers_view(v@.take(i + 1)) =~= servers_view(v@.take(i as int)).push(
                v@[i as int]@,
            ));
            assert(servers_view(r@) =~= servers_view(v@.take(i + 1)));
        }
        i = i + 1;
    }
    assert(v@.take(v@.len() as int) =~= v@);
    r
}

impl Clone for AppConfig {
    fn clone(&self) -> (r: Self)
        ensures
            r@ == self@,
    {
        AppConfig {
            version: self.version.clone(),
            signaling_servers: clone_servers(&self.signaling_servers),
            config_center_url: clone_opt(&self.config_center_url),
            last_updated: clone_opt(&self.last_updated),
        }
    }
}

/// The address of the primary signaling server in the built-in configuration.
pub open spec fn default_primary_url() -> Seq<char> {
    "wss://signal.autodesk.example.com/ws"@
}

/// The address of the backup signaling server in the built-in configuration.
pub open spec fn default_backup_url() -> Seq<char> {
    "wss://signal-backup.autodesk.example.com/ws"@
}

/// The built-in configuration.
pub open spec fn default_config() -> AppConfigView {
    AppConfigView {
        version: "1.0"@,
        signaling_servers: seq![
            ServerConfigView { url: default_primary_url(), priority: 1, enabled: true },
            ServerConfigView { url: default_backup_url(), priority: 2, enabled: true },
        ],
        config_center_url: Some("https://config.autodesk.example.com/config.json"@),
        last_updated: None,
    }
}

impl Default for AppConfig {
    fn default() -> (r: Self)
        ensures
            r@ == default_config(),
    {
        let mut servers: Vec<ServerConfig> = Vec::new();
        servers.push(
            ServerConfig {
                url: String::from_str("wss://signal.autodesk.example.com/ws"),
                priority: 1,
                enabled: true,
            },
        );
        servers.push(
            ServerConfig {
                url: String::from_str("wss://signal-backup.autodesk.example.com/ws"),
                priority: 2,
                enabled: true,
            },
        );
        let r = AppConfig {
            version: String::from_str("1.0"),
            signaling_servers: servers,
            config_center_url: Some(
                String::from_str("https://config.autodesk.example.com/config.json"),
            ),
            last_updated: None,
        };
        assert(r@.signaling_servers =~= default_config().signaling_servers);
        r
    }
}

/// The enabled entries of `s` whose priority is `p`, in their order in `s`.
pub open spec fn enabled_with_priority(s: Seq<ServerConfigView>, p: int) -> Seq<ServerConfigView>
    decreases s.len(),
{
    if s.len() == 0 {
        Seq::empty()
    } else {
        let rest = enabled_with_priority(s.drop_last(), p);
        if s.last().enabled && s.last().priority == p {
            rest.push(s.last())
        } else {
            rest
        }
    }
}

/// The enabled entries of `s` with priority at most `p`, ordered by priority;
/// entries of equal priority keep their order in `s`.
pub open spec fn ordered_up_to(s: Seq<ServerConfigView>, p: int) -> Seq<ServerConfigView>
    decreases p + 1,
{
    if p < 0 {
        Seq::empty()
    } else {
        ordered_up_to(s, p - 1) + enabled_with_priority(s, p)
    }
}

/// The enabled entries of `s`, stably ordered by priority.
pub open spec fn available_servers(s: Seq<ServerConfigView>) -> Seq<ServerConfigView> {
    ordered_up_to(s, 255)
}

/// The addresses of the entries of `s`.
pub open spec fn urls(s: Seq<ServerConfigView>) -> Seq<Seq<char>> {
    s.map_values(|c: ServerConfigView| c.url)
}

/// The addresses in `v`, taken by their characters.
pub open spec fn strings_view(v: Seq<String>) -> Seq<Seq<char>> {
    v.map_values(|s: String| s@)
}

impl AppConfig {
    /// The addresses of the enabled signaling servers, by ascending priority;
    /// servers of equal priority keep their order in the configuration.
    pub fn get_available_servers(&self) -> (r: Vec<String>)
        ensures
            strings_view(r@) == urls(available_servers(self@.signaling_servers)),
    {
        let ghost s = self@.signaling_servers;
        let servers = &self.signaling_servers;
        let n: usize = servers.len();
        let mut r: Vec<String> = Vec::new();
        let mut p: u16 = 0;
        while p <= 255
            invariant
                n == servers@.len(),
                s == servers_view(servers@),
                p <= 256,
                strings_view(r@) == urls(ordered_up_to(s, p - 1)),
            decreases 256 - p,
        {
            let mut i: usize = 0;
            while i < n
                invariant
                    n == servers@.len(),
                    s == servers_view(servers@),
                    p <= 255,
                    i <= n,
                    strings_view(r@) == urls(
                        ordered_up_to(s, p - 1) + enabled_with_priority(s.take(i as int), p as int),
                    ),
                decreases n - i,
            {
                let c = &servers[i];
                let ghost before = ordered_up_to(s, p - 1) + enabled_with_priority(
                    s.take(i as int),
                    p as int,
                );
                proof {
                    assert(s.take(i + 1).drop_last() =~= s.take(i as int));
                    assert(s.take(i + 1).last() == c@);
                }
                if c.enabled && c.priority as u16 == p {
                    r.push(c.url.clone());
                    proof {
                        let after = ordered_up_to(s, p - 1) + enabled_with_priority(
                            s.take(i + 1),
                            p as int,
                        );
                        assert(after =~= before.push(c@));
                        assert(urls(after) =~= urls(before).push(c.url@));
                        assert(strings_view(r@) =~= urls(after));
                    }
                }
                i = i + 1;
            }
            proof {
                assert(s.take(n as int) =~= s);
            }
            p = p + 1;
        }
        r
    }
}

/// What the configuration file held when the client started.
#[derive(Debug, Clone, PartialEq, Eq)]
pub enum StoredConfig {
    /// There was no configuration file.
    Missing,
    /// The file exists but could not be read.
    Unreadable,
    /// The file was read but did not hold a valid configuration.
    Malformed,
    /// The file held this configuration.
    Loaded(AppConfig),
}

/// The configuration in force after start-up from `stored`.
pub open spec fn startup_config(stored: StoredConfig) -> AppConfigView {
    match stored {
        StoredConfig::Loaded(c) => c@,
        _ => default_config(),
    }
}

/// Why a configuration operation failed, with the underlying error's text.
#[derive(Debug, Clone, PartialEq, Eq)]
pub enum ConfigError {
    /// The configuration could not be serialised.
    Serialize(String),
    /// The configuration file could not be written.
    WriteFile(String),
    /// No configuration center address is configured.
    NoConfigCenter,
    /// The HTTP client could not be created.
    BuildClient(String),
    /// The request to the configuration center failed.
    Request(String),
    /// The configuration center's answer was not a valid configuration.
    ParseRemote(String),
}

/// The user-facing text of an error.
pub open spec fn error_message(e: ConfigError) -> Seq<char> {
    match e {
        ConfigError::Serialize(d) => "序列化配置失败: "@ + d@,
        ConfigError::WriteFile(d) => "写入配置文件失败: "@ + d@,
        ConfigError::NoConfigCenter => "未配置远程配置中心地址"@,
        ConfigError::BuildClient(d) => "创建HTTP客户端失败: "@ + d@,
        ConfigError::Request(d) => "请求远程配置失败: "@ + d@,
        ConfigError::ParseRemote(d) => "解析远程配置失败: "@ + d@,
    }
}

/// `prefix` followed by `detail`.
fn prefixed(prefix: &str, detail: &String) -> (r: String)
    ensures
        r@ == prefix@ + detail@,
{
    let mut s = String::from_str(prefix);
    s.append(detail.as_str());
    s
}

impl ConfigError {
    /// The user-facing text of this error.
    pub fn message(&self) -> (r: String)
        ensures
            r@ == error_message(*self),
    {
        match self {
            ConfigError::Serialize(d) => prefixed("序列化配置失败: ", d),
            ConfigError::WriteFile(d) => prefixed("写入配置文件失败: ", d),
            ConfigError::NoConfigCenter => String::from_str("未配置远程配置中心地址"),
            ConfigError::BuildClient(d) => prefixed("创建HTTP客户端失败: ", d),
            ConfigError::Request(d) => prefixed("请求远程配置失败: ", d),
            ConfigError::ParseRemote(d) => prefixed("解析远程配置失败: ", d),
        }
    }
}

/// The configuration in force in the client.
pub struct ConfigManager {
    config: AppConfig,
}

impl View for ConfigManager {
    type V = AppConfigView;

    closed spec fn view(&self) -> AppConfigView {
        self.config@
    }
}

impl ConfigManager {
    /// Starts from what the configuration file held: a loaded configuration
    /// is used as it is; otherwise the built-in one is. When there was no
    /// file, the second result is the configuration to write to it.
    pub fn new(stored: StoredConfig) -> (r: (ConfigManager, Option<AppConfig>))
        ensures
            r.0@ == startup_config(stored),
            (stored matches StoredConfig::Loaded(c) ==> r.0@ == c@),
            match stored {
                StoredConfig::Missing => r.1 is Some && r.1->0@ == default_config(),
                _ => r.1 is None,
            },
    {
        match stored {
            StoredConfig::Loaded(c) => (ConfigManager { config: c }, None),
            StoredConfig::Missing => (
                ConfigManager { config: AppConfig::default() },
                Some(AppConfig::default()),
            ),
            _ => (ConfigManager { config: AppConfig::default() }, None),
        }
    }

    /// A copy of the configuration in force.
    pub fn get_config(&self) -> (r: AppConfig)
        ensures
            r@ == self@,
    {
        self.config.clone()
    }

    /// The addresses of the signaling servers to try, in order.
    pub fn get_servers(&self) -> (r: Vec<String>)
        ensures
            strings_view(r@) == urls(available_servers(self@.signaling_servers)),
    {
        self.config.get_available_servers()
    }

    /// Puts `new_config` in force. Saving it is the caller's part; the
    /// configuration stays in force whether or not saving succeeds.
    pub fn update_config(&mut self, new_config: AppConfig)
        ensures
            final(self)@ == new_config@,
    {
        self.config = new_config;
    }

    /// The address of the configuration center to fetch from, or
    /// `NoConfigCenter` when none is configured.
    pub fn config_center_url(&self) -> (r: Result<String, ConfigError>)
        ensures
            match self@.config_center_url {
                Some(u) => r is Ok && r->Ok_0@ == u,
                None => r is Err && r->Err_0 is NoConfigCenter,
            },
    {
        match &self.config.config_center_url {
            Some(u) => Ok(u.clone()),
            None => Err(ConfigError::NoConfigCenter),
        }
    }
}

} // verus!
