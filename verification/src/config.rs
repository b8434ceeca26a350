//! The configuration of the application and of its gateway, the settings
//! that can be changed by name, and what has to be decided before the
//! gateway starts.

use crate::error::GatewayError;
use crate::mapping::{MappingTable, MappingTables};
use crate::monitor::{Monitor, MonitorEvent};
use crate::security::{bind_address, bind_host, ProxySecurityConfig, UpstreamProxyConfig};
use crate::text::{
    parse_bool, parse_i32, parse_unsigned, same_text, spelled_bool, spelled_signed,
    spelled_unsigned,
};
use crate::zai::{ZaiConfig, ZaiDispatchMode};
use vstd::prelude::*;

verus! {

/// The port the gateway listens on unless told otherwise.
pub const DEFAULT_PORT: u16 = 8045;

/// How many events the gateway's log holds.
pub const MONITOR_CAPACITY: usize = 1000;

/// The configuration of the gateway.
#[derive(Debug)]
pub struct ProxyConfig {
    pub enabled: bool,
    pub port: u16,
    pub api_key: String,
    pub allow_lan_access: bool,
    pub auto_start: bool,
    /// Seconds a request may take in all.
    pub request_timeout: u64,
    pub enable_logging: bool,
    pub upstream_proxy: UpstreamProxyConfig,
    pub mappings: MappingTables,
    pub zai: ZaiConfig,
}

/// The configuration of the application.
#[derive(Debug)]
pub struct AppConfig {
    pub language: String,
    pub theme: String,
    pub auto_refresh: bool,
    /// Minutes between two refreshes of the quotas.
    pub refresh_interval: i32,
    pub auto_launch: bool,
    pub proxy: ProxyConfig,
}

/// One setting with its new value.
#[derive(Debug)]
pub enum Setting {
    Language(String),
    Theme(String),
    AutoRefresh(bool),
    RefreshInterval(i32),
    AutoLaunch(bool),
    ProxyEnabled(bool),
    ProxyPort(u16),
    ProxyApiKey(String),
    ProxyAllowLanAccess(bool),
    ProxyAutoStart(bool),
    ProxyRequestTimeout(u64),
    UpstreamProxyEnabled(bool),
    UpstreamProxyUrl(String),
}

/// The settings that can be changed by name.
#[derive(Clone, Copy, Debug, PartialEq, Eq, Structural)]
pub enum SettingKey {
    Language,
    Theme,
    AutoRefresh,
    RefreshInterval,
    AutoLaunch,
    ProxyEnabled,
    ProxyPort,
    ProxyApiKey,
    ProxyAllowLanAccess,
    ProxyAutoStart,
    ProxyRequestTimeout,
    UpstreamProxyEnabled,
    UpstreamProxyUrl,
}

/// Why a setting could not be changed.
#[derive(Clone, Copy, Debug, PartialEq, Eq, Structural)]
pub enum SettingError {
    /// The value is neither `true` nor `false`.
    InvalidBool,
    /// The value is not a whole number in the setting's range.
    InvalidInteger,
    /// The value is not a port number.
    InvalidPort,
    /// No setting has this name.
    UnknownKey,
}

/// The setting that `name` names.
pub open spec fn key_named(name: Seq<char>) -> Option<SettingKey> {
    if name == "language"@ {
        Some(SettingKey::Language)
    } else if name == "theme"@ {
        Some(SettingKey::Theme)
    } else if name == "auto_refresh"@ {
        Some(SettingKey::AutoRefresh)
    } else if name == "refresh_interval"@ {
        Some(SettingKey::RefreshInterval)
    } else if name == "auto_launch"@ {
        Some(SettingKey::AutoLaunch)
    } else if name == "proxy.enabled"@ {
        Some(SettingKey::ProxyEnabled)
    } else if name == "proxy.port"@ {
        Some(SettingKey::ProxyPort)
    } else if name == "proxy.api_key"@ {
        Some(SettingKey::ProxyApiKey)
    } else if name == "proxy.allow_lan_access"@ {
        Some(SettingKey::ProxyAllowLanAccess)
    } else if name == "proxy.auto_start"@ {
        Some(SettingKey::ProxyAutoStart)
    } else if name == "proxy.request_timeout"@ {
        Some(SettingKey::ProxyRequestTimeout)
    } else if name == "proxy.upstream_proxy.enabled"@ {
        Some(SettingKey::UpstreamProxyEnabled)
    } else if name == "proxy.upstream_proxy.url"@ {
        Some(SettingKey::UpstreamProxyUrl)
    } else {
        None
    }
}

/// Reads the name of a setting.
pub fn parse_key(name: &str) -> (key: Option<SettingKey>)
    ensures
        key == key_named(name@),
{
    if same_text(name, "language") {
        Some(SettingKey::Language)
    } else if same_text(name, "theme") {
        Some(SettingKey::Theme)
    } else if same_text(name, "auto_refresh") {
        Some(SettingKey::AutoRefresh)
    } else if same_text(name, "refresh_interval") {
        Some(SettingKey::RefreshInterval)
    } else if same_text(name, "auto_launch") {
        Some(SettingKey::AutoLaunch)
    } else if same_text(name, "proxy.enabled") {
        Some(SettingKey::ProxyEnabled)
    } else if same_text(name, "proxy.port") {
        Some(SettingKey::ProxyPort)
    } else if same_text(name, "proxy.api_key") {
        Some(SettingKey::ProxyApiKey)
    } else if same_text(name, "proxy.allow_lan_access") {
        Some(SettingKey::ProxyAllowLanAccess)
    } else if same_text(name, "proxy.auto_start") {
        Some(SettingKey::ProxyAutoStart)
    } else if same_text(name, "proxy.request_timeout") {
        Some(SettingKey::ProxyRequestTimeout)
    } else if same_text(name, "proxy.upstream_proxy.enabled") {
        Some(SettingKey::UpstreamProxyEnabled)
    } else if same_text(name, "proxy.upstream_proxy.url") {
        Some(SettingKey::UpstreamProxyUrl)
    } else {
        None
    }
}

/// `setting` is what the value `value` means for the setting `key`.
pub open spec fn spells(key: SettingKey, value: Seq<char>, setting: Setting) -> bool {
    match setting {
        Setting::Language(text) => key == SettingKey::Language && text@ == value,
        Setting::Theme(text) => key == SettingKey::Theme && text@ == value,
        Setting::AutoRefresh(flag) => key == SettingKey::AutoRefresh && spelled_bool(value)
            == Some(flag),
        Setting::RefreshInterval(minutes) => key == SettingKey::RefreshInterval && spelled_signed(
            value,
            i32::MIN as int,
            i32::MAX as int,
        ) == Some(minutes as int),
        Setting::AutoLaunch(flag) => key == SettingKey::AutoLaunch && spelled_bool(value) == Some(
            flag,
        ),
        Setting::ProxyEnabled(flag) => key == SettingKey::ProxyEnabled && spelled_bool(value)
            == Some(flag),
        Setting::ProxyPort(port) => key == SettingKey::ProxyPort && spelled_unsigned(
            value,
            u16::MAX as nat,
        ) == Some(port as nat),
        Setting::ProxyApiKey(text) => key == SettingKey::ProxyApiKey && text@ == value,
        Setting::ProxyAllowLanAccess(flag) => key == SettingKey::ProxyAllowLanAccess
            && spelled_bool(value) == Some(flag),
        Setting::ProxyAutoStart(flag) => key == SettingKey::ProxyAutoStart && spelled_bool(value)
            == Some(flag),
        Setting::ProxyRequestTimeout(seconds) => key == SettingKey::ProxyRequestTimeout
            && spelled_unsigned(value, u64::MAX as nat) == Some(seconds as nat),
        Setting::UpstreamProxyEnabled(flag) => key == SettingKey::UpstreamProxyEnabled
            && spelled_bool(value) == Some(flag),
        Setting::UpstreamProxyUrl(text) => key == SettingKey::UpstreamProxyUrl && text@ == value,
    }
}

/// The error that the value `value` earns for the setting `key`, if it
/// cannot be read as a value of that setting.
pub open spec fn misspelled(key: SettingKey, value: Seq<char>) -> Option<SettingError> {
    match key {
        SettingKey::Language | SettingKey::Theme | SettingKey::ProxyApiKey | SettingKey::UpstreamProxyUrl => None,
        SettingKey::RefreshInterval => if spelled_signed(value, i32::MIN as int, i32::MAX as int)
            is None {
            Some(SettingError::InvalidInteger)
        } else {
            None
        },
        SettingKey::ProxyPort => if spelled_unsigned(value, u16::MAX as nat) is None {
            Some(SettingError::InvalidPort)
        } else {
            None
        },
        SettingKey::ProxyRequestTimeout => if spelled_unsigned(value, u64::MAX as nat) is None {
            Some(SettingError::InvalidInteger)
        } else {
            None
        },
        _ => if spelled_bool(value) is None {
            Some(SettingError::InvalidBool)
        } else {
            None
        },
    }
}

/// Reads a flag.
fn read_flag(value: &str) -> (flag: Result<bool, SettingError>)
    ensures
        match flag {
            Ok(flag) => spelled_bool(value@) == Some(flag),
            Err(error) => error == SettingError::InvalidBool && spelled_bool(value@) is None,
        },
{
    match parse_bool(value) {
        Some(flag) => Ok(flag),
        None => Err(SettingError::InvalidBool),
    }
}

/// Reads the value of the setting `key`.
pub fn parse_value(key: SettingKey, value: &str) -> (parsed: Result<Setting, SettingError>)
    ensures
        match parsed {
            Ok(setting) => spells(key, value@, setting) && misspelled(key, value@) is None,
            Err(error) => misspelled(key, value@) == Some(error),
        },
{
    match key {
        SettingKey::Language => Ok(Setting::Language(value.to_owned())),
        SettingKey::Theme => Ok(Setting::Theme(value.to_owned())),
        SettingKey::ProxyApiKey => Ok(Setting::ProxyApiKey(value.to_owned())),
        SettingKey::UpstreamProxyUrl => Ok(Setting::UpstreamProxyUrl(value.to_owned())),
        SettingKey::RefreshInterval => match parse_i32(value) {
            Some(minutes) => Ok(Setting::RefreshInterval(minutes)),
            None => Err(SettingError::InvalidInteger),
        },
        SettingKey::ProxyPort => match parse_unsigned(value, 65535) {
            Some(port) => Ok(Setting::ProxyPort(port as u16)),
            None => Err(SettingError::InvalidPort),
        },
        SettingKey::ProxyRequestTimeout => match parse_unsigned(value, u64::MAX) {
            Some(seconds) => Ok(Setting::ProxyRequestTimeout(seconds)),
            None => Err(SettingError::InvalidInteger),
        },
        SettingKey::AutoRefresh => match read_flag(value) {
            Ok(flag) => Ok(Setting::AutoRefresh(flag)),
            Err(error) => Err(error),
        },
        SettingKey::AutoLaunch => match read_flag(value) {
            Ok(flag) => Ok(Setting::AutoLaunch(flag)),
            Err(error) => Err(error),
        },
        SettingKey::ProxyEnabled => match read_flag(value) {
            Ok(flag) => Ok(Setting::ProxyEnabled(flag)),
            Err(error) => Err(error),
        },
        SettingKey::ProxyAllowLanAccess => match read_flag(value) {
            Ok(flag) => Ok(Setting::ProxyAllowLanAccess(flag)),
            Err(error) => Err(error),
        },
        SettingKey::ProxyAutoStart => match read_flag(value) {
            Ok(flag) => Ok(Setting::ProxyAutoStart(flag)),
            Err(error) => Err(error),
        },
        SettingKey::UpstreamProxyEnabled => match read_flag(value) {
            Ok(flag) => Ok(Setting::UpstreamProxyEnabled(flag)),
            Err(error) => Err(error),
        },
    }
}

/// Reads a setting from its name and its value as text.
pub fn parse_setting(name: &str, value: &str) -> (parsed: Result<Setting, SettingError>)
    ensures
        match parsed {
            Ok(setting) => key_named(name@) matches Some(key) && spells(key, value@, setting)
                && misspelled(key, value@) is None,
            Err(error) => match key_named(name@) {
                None => error == SettingError::UnknownKey,
                Some(key) => misspelled(key, value@) == Some(error),
            },
        },
{
    match parse_key(name) {
        None => Err(SettingError::UnknownKey),
        Some(key) => parse_value(key, value),
    }
}

/// The configuration `config` with `setting` put into effect: the one
/// field that the setting names holds the new value, every other field is
/// as it was.
pub open spec fn with_setting(config: AppConfig, setting: Setting) -> AppConfig {
    match setting {
        Setting::Language(text) => AppConfig { language: text, ..config },
        Setting::Theme(text) => AppConfig { theme: text, ..config },
        Setting::AutoRefresh(flag) => AppConfig { auto_refresh: flag, ..config },
        Setting::RefreshInterval(minutes) => AppConfig { refresh_interval: minutes, ..config },
        Setting::AutoLaunch(flag) => AppConfig { auto_launch: flag, ..config },
        Setting::ProxyEnabled(flag) => AppConfig {
            proxy: ProxyConfig { enabled: flag, ..config.proxy },
            ..config
        },
        Setting::ProxyPort(port) => AppConfig {
            proxy: ProxyConfig { port, ..config.proxy },
            ..config
        },
        Setting::ProxyApiKey(text) => AppConfig {
            proxy: ProxyConfig { api_key: text, ..config.proxy },
            ..config
        },
        Setting::ProxyAllowLanAccess(flag) => AppConfig {
            proxy: ProxyConfig { allow_lan_access: flag, ..config.proxy },
            ..config
        },
        Setting::ProxyAutoStart(flag) => AppConfig {
            proxy: ProxyConfig { auto_start: flag, ..config.proxy },
            ..config
        },
        Setting::ProxyRequestTimeout(seconds) => AppConfig {
            proxy: ProxyConfig { request_timeout: seconds, ..config.proxy },
            ..config
        },
        Setting::UpstreamProxyEnabled(flag) => AppConfig {
            proxy: ProxyConfig {
                upstream_proxy: UpstreamProxyConfig { enabled: flag, ..config.proxy.upstream_proxy },
                ..config.proxy
            },
            ..config
        },
        Setting::UpstreamProxyUrl(text) => AppConfig {
            proxy: ProxyConfig {
                upstream_proxy: UpstreamProxyConfig { url: text, ..config.proxy.upstream_proxy },
                ..config.proxy
            },
            ..config
        },
    }
}

/// Seconds a request may take unless configured otherwise.
pub const DEFAULT_REQUEST_TIMEOUT: u64 = 120;

/// Minutes between two refreshes of the quotas unless configured otherwise.
pub const DEFAULT_REFRESH_INTERVAL: i32 = 15;

impl ProxyConfig {
    /// The configuration of a gateway that nobody has configured yet: off,
    /// on the usual port, closed to the local network, with empty mapping
    /// tables, and guarded by `api_key`.
    pub fn new(api_key: String) -> (config: ProxyConfig)
        ensures
            config.api_key == api_key,
            !config.enabled,
            config.port == DEFAULT_PORT,
            !config.allow_lan_access,
            !config.auto_start,
            config.request_timeout == DEFAULT_REQUEST_TIMEOUT,
            !config.enable_logging,
            !config.upstream_proxy.enabled,
            config.upstream_proxy.url@ == Seq::<char>::empty(),
            config.mappings.anthropic@ == Map::<Seq<char>, Seq<char>>::empty(),
            config.mappings.openai@ == Map::<Seq<char>, Seq<char>>::empty(),
            config.mappings.custom@ == Map::<Seq<char>, Seq<char>>::empty(),
            !config.zai.enabled,
    {
        ProxyConfig {
            enabled: false,
            port: DEFAULT_PORT,
            api_key,
            allow_lan_access: false,
            auto_start: false,
            request_timeout: DEFAULT_REQUEST_TIMEOUT,
            enable_logging: false,
            upstream_proxy: UpstreamProxyConfig { enabled: false, url: String::new() },
            mappings: MappingTables {
                anthropic: MappingTable::new(),
                openai: MappingTable::new(),
                custom: MappingTable::new(),
            },
            zai: ZaiConfig { enabled: false, dispatch_mode: ZaiDispatchMode::DirectForward },
        }
    }
}

impl AppConfig {
    /// The configuration of an application that nobody has configured yet.
    pub fn new(api_key: String) -> (config: AppConfig)
        ensures
            config.language@ == "zh"@,
            config.theme@ == "system"@,
            !config.auto_refresh,
            config.refresh_interval == DEFAULT_REFRESH_INTERVAL,
            !config.auto_launch,
            config.proxy.api_key == api_key,
            config.proxy.port == DEFAULT_PORT,
            !config.proxy.allow_lan_access,
            !config.proxy.enable_logging,
            !config.proxy.zai.enabled,
            config.proxy.request_timeout == DEFAULT_REQUEST_TIMEOUT,
    {
        AppConfig {
            language: "zh".to_owned(),
            theme: "system".to_owned(),
            auto_refresh: false,
            refresh_interval: DEFAULT_REFRESH_INTERVAL,
            auto_launch: false,
            proxy: ProxyConfig::new(api_key),
        }
    }

    /// Puts one setting into effect.
    pub fn apply(&mut self, setting: Setting)
        ensures
            *final(self) == with_setting(*old(self), setting),
    {
        match setting {
            Setting::Language(text) => {
                self.language = text;
            },
            Setting::Theme(text) => {
                self.theme = text;
            },
            Setting::AutoRefresh(flag) => {
                self.auto_refresh = flag;
            },
            Setting::RefreshInterval(minutes) => {
                self.refresh_interval = minutes;
            },
            Setting::AutoLaunch(flag) => {
                self.auto_launch = flag;
            },
            Setting::ProxyEnabled(flag) => {
                self.proxy.enabled = flag;
            },
            Setting::ProxyPort(port) => {
                self.proxy.port = port;
            },
            Setting::ProxyApiKey(text) => {
                self.proxy.api_key = text;
            },
            Setting::ProxyAllowLanAccess(flag) => {
                self.proxy.allow_lan_access = flag;
            },
            Setting::ProxyAutoStart(flag) => {
                self.proxy.auto_start = flag;
            },
            Setting::ProxyRequestTimeout(seconds) => {
                self.proxy.request_timeout = seconds;
            },
            Setting::UpstreamProxyEnabled(flag) => {
                self.proxy.upstream_proxy.enabled = flag;
            },
            Setting::UpstreamProxyUrl(text) => {
                self.proxy.upstream_proxy.url = text;
            },
        }
    }
}

/// Changes the setting called `name` to what `value` spells. A name that
/// names no setting, or a value that the setting cannot take, is reported
/// and leaves the configuration as it was.
pub fn config_set(config: &mut AppConfig, name: &str, value: &str) -> (changed: Result<
    (),
    SettingError,
>)
    ensures
        match changed {
            Ok(_) => exists|setting: Setting|
                {
                    &&& key_named(name@) is Some
                    &&& #[trigger] spells(key_named(name@)->0, value@, setting)
                    &&& *final(config) == with_setting(*old(config), setting)
                },
            Err(error) => {
                &&& *final(config) == *old(config)
                &&& match key_named(name@) {
                    None => error == SettingError::UnknownKey,
                    Some(key) => misspelled(key, value@) == Some(error),
                }
            },
        },
        changed is Err <==> (match key_named(name@) {
            None => true,
            Some(key) => misspelled(key, value@) is Some,
        }),
{
    match parse_setting(name, value) {
        Ok(setting) => {
            config.apply(setting);
            assert(spells(key_named(name@)->0, value@, setting));
            Ok(())
        },
        Err(error) => Err(error),
    }
}

impl ProxySecurityConfig {
    /// What the guard needs to know, taken from the gateway's configuration.
    pub fn from_proxy_config(config: &ProxyConfig) -> (security: ProxySecurityConfig)
        ensures
            security.api_key@ == config.api_key@,
            security.allow_lan_access == config.allow_lan_access,
    {
        ProxySecurityConfig {
            api_key: config.api_key.clone(),
            allow_lan_access: config.allow_lan_access,
        }
    }
}

/// Everything that is settled before the listener is bound.
#[derive(Debug)]
pub struct StartPlan {
    /// The address to bind to.
    pub host: &'static str,
    pub port: u16,
    pub security: ProxySecurityConfig,
    /// Seconds a request may take in all.
    pub request_timeout: u64,
    /// The event log, empty, and recording if logging is configured.
    pub monitor: Monitor,
    /// The label of the zai dispatch mode, if zai is switched on.
    pub zai_mode: Option<&'static str>,
    /// How many accounts the pool holds.
    pub account_count: usize,
}

/// The configuration with the port and the access policy that a start was
/// asked with.
pub open spec fn with_start_options(config: AppConfig, port: u16, lan: bool) -> AppConfig {
    AppConfig {
        proxy: ProxyConfig { port, allow_lan_access: lan, ..config.proxy },
        ..config
    }
}

/// Prepares the start of the gateway on `port`, open to the local network
/// or not, with a pool of `account_count` accounts. The port and the
/// access policy are written into the configuration. With an empty pool
/// there is no plan: the gateway does not start, and nothing gets bound.
pub fn plan_start(config: &mut AppConfig, port: u16, lan: bool, account_count: usize) -> (plan:
    Result<StartPlan, GatewayError>)
    ensures
        *final(config) == with_start_options(*old(config), port, lan),
        plan is Err <==> account_count == 0,
        match plan {
            Err(error) => error == GatewayError::PoolEmpty,
            Ok(plan) => {
                &&& plan.host@ == bind_address(lan)
                &&& plan.port == port
                &&& plan.security.api_key@ == old(config).proxy.api_key@
                &&& plan.security.allow_lan_access == lan
                &&& plan.request_timeout == old(config).proxy.request_timeout
                &&& plan.monitor.well_formed()
                &&& plan.monitor.limit() == MONITOR_CAPACITY
                &&& plan.monitor.events() == Seq::<MonitorEvent>::empty()
                &&& plan.monitor.recording() == old(config).proxy.enable_logging
                &&& plan.account_count == account_count
                &&& match plan.zai_mode {
                    Some(label) => old(config).proxy.zai.enabled && label@ == match old(
                        config,
                    ).proxy.zai.dispatch_mode {
                        ZaiDispatchMode::DirectForward => "direct"@,
                        ZaiDispatchMode::TransformThenForward => "transform"@,
                    },
                    None => !old(config).proxy.zai.enabled,
                }
            },
        },
{
    config.proxy.port = port;
    config.proxy.allow_lan_access = lan;
    if account_count == 0 {
        return Err(GatewayError::PoolEmpty);
    }
    let mut monitor = Monitor::new(MONITOR_CAPACITY);
    if config.proxy.enable_logging {
        monitor.set_enabled(true);
    }
    let zai_mode = if config.proxy.zai.enabled {
        Some(config.proxy.zai.dispatch_mode_display())
    } else {
        None
    };
    Ok(
        StartPlan {
            host: bind_host(lan),
            port,
            security: ProxySecurityConfig::from_proxy_config(&config.proxy),
            request_timeout: config.proxy.request_timeout,
            monitor,
            zai_mode,
            account_count,
        },
    )
}

} // verus!
