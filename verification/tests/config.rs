use autodesk::{AppConfig, ConfigError, ConfigManager, ServerConfig, StoredConfig};

fn server(url: &str, priority: u8, enabled: bool) -> ServerConfig {
    ServerConfig { url: url.to_string(), priority, enabled }
}

fn config_with(servers: Vec<ServerConfig>) -> AppConfig {
    AppConfig {
        version: "2".to_string(),
        signaling_servers: servers,
        config_center_url: None,
        last_updated: Some("today".to_string()),
    }
}

#[test]
fn default_config_values() {
    let c = AppConfig::default();
    assert_eq!(c.version, "1.0");
    assert_eq!(c.signaling_servers.len(), 2);
    assert_eq!(c.signaling_servers[0], server("wss://signal.autodesk.example.com/ws", 1, true));
    assert_eq!(
        c.signaling_servers[1],
        server("wss://signal-backup.autodesk.example.com/ws", 2, true)
    );
    assert_eq!(
        c.config_center_url,
        Some("https://config.autodesk.example.com/config.json".to_string())
    );
    assert_eq!(c.last_updated, None);
}

#[test]
fn default_available_servers() {
    assert_eq!(
        AppConfig::default().get_available_servers(),
        vec![
            "wss://signal.autodesk.example.com/ws".to_string(),
            "wss://signal-backup.autodesk.example.com/ws".to_string()
        ]
    );
}

#[test]
fn available_servers_skip_disabled_and_sort_stably() {
    let c = config_with(vec![
        server("c", 3, true),
        server("a1", 1, true),
        server("off", 0, false),
        server("b", 2, true),
        server("a2", 1, true),
        server("z", 255, true),
        server("zero", 0, true),
    ]);
    assert_eq!(c.get_available_servers(), vec!["zero", "a1", "a2", "b", "c", "z"]);
}

#[test]
fn available_servers_empty_when_all_disabled() {
    let c = config_with(vec![server("a", 1, false), server("b", 2, false)]);
    assert!(c.get_available_servers().is_empty());
    assert!(config_with(vec![]).get_available_servers().is_empty());
}

#[test]
fn startup_with_missing_file_uses_and_writes_default() {
    let (m, write) = ConfigManager::new(StoredConfig::Missing);
    assert_eq!(m.get_config(), AppConfig::default());
    assert_eq!(write, Some(AppConfig::default()));
}

#[test]
fn startup_with_bad_file_uses_default_without_writing() {
    let (m, write) = ConfigManager::new(StoredConfig::Malformed);
    assert_eq!(m.get_config(), AppConfig::default());
    assert_eq!(write, None);
    let (m, write) = ConfigManager::new(StoredConfig::Unreadable);
    assert_eq!(m.get_config(), AppConfig::default());
    assert_eq!(write, None);
}

#[test]
fn startup_with_loaded_file_uses_it() {
    let c = config_with(vec![server("x", 5, true)]);
    let (m, write) = ConfigManager::new(StoredConfig::Loaded(c.clone()));
    assert_eq!(m.get_config(), c);
    assert_eq!(m.get_servers(), vec!["x"]);
    assert_eq!(write, None);
}

#[test]
fn update_then_read_gives_new_config() {
    let (mut m, _) = ConfigManager::new(StoredConfig::Missing);
    let c = config_with(vec![server("b", 2, true), server("a", 1, true)]);
    m.update_config(c.clone());
    assert_eq!(m.get_config(), c);
    assert_eq!(m.get_servers(), vec!["a", "b"]);
}

#[test]
fn config_center_url_present_or_missing() {
    let (m, _) = ConfigManager::new(StoredConfig::Missing);
    assert_eq!(
        m.config_center_url(),
        Ok("https://config.autodesk.example.com/config.json".to_string())
    );
    let (m, _) = ConfigManager::new(StoredConfig::Loaded(config_with(vec![])));
    assert_eq!(m.config_center_url(), Err(ConfigError::NoConfigCenter));
}

#[test]
fn error_messages() {
    assert_eq!(ConfigError::Serialize("e".to_string()).message(), "序列化配置失败: e");
    assert_eq!(ConfigError::WriteFile("disk".to_string()).message(), "写入配置文件失败: disk");
    assert_eq!(ConfigError::NoConfigCenter.message(), "未配置远程配置中心地址");
    assert_eq!(ConfigError::BuildClient("b".to_string()).message(), "创建HTTP客户端失败: b");
    assert_eq!(ConfigError::Request("timeout".to_string()).message(), "请求远程配置失败: timeout");
    assert_eq!(ConfigError::ParseRemote("p".to_string()).message(), "解析远程配置失败: p");
}

#[test]
fn clone_keeps_everything() {
    let c = config_with(vec![server("a", 7, false)]);
    assert_eq!(c.clone(), c);
}

#[test]
fn url_of_only_disabled_servers_never_offered() {
    let c = config_with(vec![
        server("dup", 1, true),
        server("hidden", 0, false),
        server("dup", 0, true),
        server("hidden", 9, false),
    ]);
    let offered = c.get_available_servers();
    assert_eq!(offered, vec!["dup", "dup"]);
    assert!(!offered.contains(&"hidden".to_string()));
}
