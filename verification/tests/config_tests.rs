use antigravity_core::config::{
    config_set, parse_key, parse_setting, parse_value, plan_start, AppConfig, ProxyConfig, Setting,
    SettingError, SettingKey, DEFAULT_PORT, MONITOR_CAPACITY,
};
use antigravity_core::error::GatewayError;
use antigravity_core::security::ProxySecurityConfig;
use antigravity_core::zai::ZaiDispatchMode;

fn config() -> AppConfig {
    AppConfig::new("sk-test".to_string())
}

#[test]
fn a_fresh_configuration_has_the_usual_values() {
    let config = config();
    assert_eq!(config.language, "zh");
    assert_eq!(config.theme, "system");
    assert!(!config.auto_refresh);
    assert_eq!(config.refresh_interval, 15);
    assert!(!config.auto_launch);
    assert!(!config.proxy.enabled);
    assert_eq!(config.proxy.port, 8045);
    assert_eq!(DEFAULT_PORT, 8045);
    assert_eq!(config.proxy.api_key, "sk-test");
    assert!(!config.proxy.allow_lan_access);
    assert!(!config.proxy.auto_start);
    assert_eq!(config.proxy.request_timeout, 120);
    assert!(!config.proxy.enable_logging);
    assert!(!config.proxy.upstream_proxy.enabled);
    assert_eq!(config.proxy.upstream_proxy.url, "");
    assert!(!config.proxy.zai.enabled);
    assert_eq!(config.proxy.mappings.openai.map_model("m"), "m");
    let proxy = ProxyConfig::new("k".to_string());
    assert_eq!(proxy.api_key, "k");
}

#[test]
fn every_setting_can_be_changed_by_name() {
    let mut config = config();
    assert_eq!(config_set(&mut config, "language", "en"), Ok(()));
    assert_eq!(config.language, "en");
    assert_eq!(config_set(&mut config, "theme", "dark"), Ok(()));
    assert_eq!(config.theme, "dark");
    assert_eq!(config_set(&mut config, "auto_refresh", "true"), Ok(()));
    assert!(config.auto_refresh);
    assert_eq!(config_set(&mut config, "refresh_interval", "30"), Ok(()));
    assert_eq!(config.refresh_interval, 30);
    assert_eq!(config_set(&mut config, "auto_launch", "true"), Ok(()));
    assert!(config.auto_launch);
    assert_eq!(config_set(&mut config, "proxy.enabled", "true"), Ok(()));
    assert!(config.proxy.enabled);
    assert_eq!(config_set(&mut config, "proxy.port", "9000"), Ok(()));
    assert_eq!(config.proxy.port, 9000);
    assert_eq!(config_set(&mut config, "proxy.api_key", "sk-new"), Ok(()));
    assert_eq!(config.proxy.api_key, "sk-new");
    assert_eq!(config_set(&mut config, "proxy.allow_lan_access", "true"), Ok(()));
    assert!(config.proxy.allow_lan_access);
    assert_eq!(config_set(&mut config, "proxy.auto_start", "true"), Ok(()));
    assert!(config.proxy.auto_start);
    assert_eq!(config_set(&mut config, "proxy.request_timeout", "45"), Ok(()));
    assert_eq!(config.proxy.request_timeout, 45);
    assert_eq!(config_set(&mut config, "proxy.upstream_proxy.enabled", "true"), Ok(()));
    assert!(config.proxy.upstream_proxy.enabled);
    assert_eq!(config_set(&mut config, "proxy.upstream_proxy.url", "http://p:1"), Ok(()));
    assert_eq!(config.proxy.upstream_proxy.url, "http://p:1");
    // Nothing else moved along the way.
    assert_eq!(config.language, "en");
    assert_eq!(config.refresh_interval, 30);
    assert_eq!(config.proxy.port, 9000);
    assert!(!config.proxy.enable_logging);
}

#[test]
fn a_setting_changes_one_field_only() {
    let mut config = config();
    assert_eq!(config_set(&mut config, "proxy.port", "1"), Ok(()));
    assert_eq!(config.proxy.port, 1);
    assert_eq!(config.language, "zh");
    assert_eq!(config.theme, "system");
    assert!(!config.auto_refresh);
    assert_eq!(config.refresh_interval, 15);
    assert_eq!(config.proxy.api_key, "sk-test");
    assert_eq!(config.proxy.request_timeout, 120);
    assert!(!config.proxy.allow_lan_access);
}

#[test]
fn an_unknown_name_is_reported_and_changes_nothing() {
    let mut config = config();
    assert_eq!(config_set(&mut config, "proxy.ports", "1"), Err(SettingError::UnknownKey));
    assert_eq!(config_set(&mut config, "", "1"), Err(SettingError::UnknownKey));
    assert_eq!(config_set(&mut config, "Language", "en"), Err(SettingError::UnknownKey));
    assert_eq!(config_set(&mut config, "proxy.enable_logging", "true"), Err(SettingError::UnknownKey));
    assert_eq!(config.language, "zh");
    assert_eq!(config.proxy.port, 8045);
}

#[test]
fn a_bad_flag_is_an_invalid_bool() {
    let mut config = config();
    for name in [
        "auto_refresh",
        "auto_launch",
        "proxy.enabled",
        "proxy.allow_lan_access",
        "proxy.auto_start",
        "proxy.upstream_proxy.enabled",
    ] {
        assert_eq!(config_set(&mut config, name, "yes"), Err(SettingError::InvalidBool));
        assert_eq!(config_set(&mut config, name, ""), Err(SettingError::InvalidBool));
        assert_eq!(config_set(&mut config, name, "TRUE"), Err(SettingError::InvalidBool));
    }
    assert!(!config.auto_refresh);
    assert!(!config.proxy.enabled);
}

#[test]
fn a_bad_port_is_an_invalid_port() {
    let mut config = config();
    assert_eq!(config_set(&mut config, "proxy.port", "65536"), Err(SettingError::InvalidPort));
    assert_eq!(config_set(&mut config, "proxy.port", "-1"), Err(SettingError::InvalidPort));
    assert_eq!(config_set(&mut config, "proxy.port", "http"), Err(SettingError::InvalidPort));
    assert_eq!(config_set(&mut config, "proxy.port", ""), Err(SettingError::InvalidPort));
    assert_eq!(config.proxy.port, 8045);
    assert_eq!(config_set(&mut config, "proxy.port", "65535"), Ok(()));
    assert_eq!(config.proxy.port, 65535);
    assert_eq!(config_set(&mut config, "proxy.port", "0"), Ok(()));
    assert_eq!(config.proxy.port, 0);
}

#[test]
fn a_bad_number_is_an_invalid_integer() {
    let mut config = config();
    assert_eq!(config_set(&mut config, "refresh_interval", "soon"), Err(SettingError::InvalidInteger));
    assert_eq!(
        config_set(&mut config, "refresh_interval", "2147483648"),
        Err(SettingError::InvalidInteger)
    );
    assert_eq!(config_set(&mut config, "refresh_interval", "-5"), Ok(()));
    assert_eq!(config.refresh_interval, -5);
    assert_eq!(
        config_set(&mut config, "proxy.request_timeout", "-5"),
        Err(SettingError::InvalidInteger)
    );
    assert_eq!(
        config_set(&mut config, "proxy.request_timeout", "18446744073709551616"),
        Err(SettingError::InvalidInteger)
    );
    assert_eq!(config_set(&mut config, "proxy.request_timeout", "18446744073709551615"), Ok(()));
    assert_eq!(config.proxy.request_timeout, u64::MAX);
}

#[test]
fn text_settings_take_any_text() {
    let mut config = config();
    assert_eq!(config_set(&mut config, "language", ""), Ok(()));
    assert_eq!(config.language, "");
    assert_eq!(config_set(&mut config, "proxy.api_key", "true"), Ok(()));
    assert_eq!(config.proxy.api_key, "true");
}

#[test]
fn names_and_values_are_read_separately() {
    assert_eq!(parse_key("proxy.port"), Some(SettingKey::ProxyPort));
    assert_eq!(parse_key("proxy.upstream_proxy.url"), Some(SettingKey::UpstreamProxyUrl));
    assert_eq!(parse_key("proxy"), None);
    assert!(matches!(parse_value(SettingKey::ProxyPort, "80"), Ok(Setting::ProxyPort(80))));
    assert!(matches!(parse_value(SettingKey::AutoLaunch, "false"), Ok(Setting::AutoLaunch(false))));
    assert!(matches!(parse_value(SettingKey::AutoLaunch, "0"), Err(SettingError::InvalidBool)));
    assert!(matches!(parse_setting("theme", "light"), Ok(Setting::Theme(t)) if t == "light"));
    assert!(matches!(parse_setting("nope", "light"), Err(SettingError::UnknownKey)));
}

#[test]
fn apply_puts_a_setting_into_effect() {
    let mut config = config();
    config.apply(Setting::ProxyRequestTimeout(7));
    config.apply(Setting::UpstreamProxyUrl("u".to_string()));
    assert_eq!(config.proxy.request_timeout, 7);
    assert_eq!(config.proxy.upstream_proxy.url, "u");
    assert!(!config.proxy.upstream_proxy.enabled);
}

#[test]
fn an_empty_pool_prevents_the_start() {
    let mut config = config();
    let plan = plan_start(&mut config, 8045, false, 0);
    assert_eq!(plan.unwrap_err(), GatewayError::PoolEmpty);
    assert!(GatewayError::PoolEmpty.prevents_start());
}

#[test]
fn the_plan_binds_to_loopback_by_default() {
    let mut config = config();
    let plan = plan_start(&mut config, 9001, false, 2).unwrap();
    assert_eq!(plan.host, "127.0.0.1");
    assert_eq!(plan.port, 9001);
    assert_eq!(plan.account_count, 2);
    assert_eq!(plan.request_timeout, 120);
    assert_eq!(plan.security.api_key, "sk-test");
    assert!(!plan.security.allow_lan_access);
    assert_eq!(plan.monitor.capacity(), 1000);
    assert_eq!(MONITOR_CAPACITY, 1000);
    assert!(!plan.monitor.is_enabled());
    assert_eq!(plan.monitor.len(), 0);
    assert_eq!(plan.zai_mode, None);
    assert_eq!(config.proxy.port, 9001);
    assert!(!config.proxy.allow_lan_access);
}

#[test]
fn the_plan_follows_the_options_and_the_configuration() {
    let mut config = config();
    config.proxy.enable_logging = true;
    config.proxy.zai.enabled = true;
    config.proxy.zai.dispatch_mode = ZaiDispatchMode::TransformThenForward;
    config.proxy.request_timeout = 30;
    let plan = plan_start(&mut config, 80, true, 1).unwrap();
    assert_eq!(plan.host, "0.0.0.0");
    assert!(plan.security.allow_lan_access);
    assert!(plan.monitor.is_enabled());
    assert_eq!(plan.zai_mode, Some("transform"));
    assert_eq!(plan.request_timeout, 30);
    assert!(config.proxy.allow_lan_access);
    assert_eq!(config.proxy.port, 80);
}

#[test]
fn the_options_are_written_even_when_the_start_fails() {
    let mut config = config();
    assert!(plan_start(&mut config, 81, true, 0).is_err());
    assert_eq!(config.proxy.port, 81);
    assert!(config.proxy.allow_lan_access);
}

#[test]
fn the_security_settings_come_from_the_proxy_configuration() {
    let mut config = config();
    config.proxy.allow_lan_access = true;
    let security = ProxySecurityConfig::from_proxy_config(&config.proxy);
    assert_eq!(security.api_key, "sk-test");
    assert!(security.allow_lan_access);
}
