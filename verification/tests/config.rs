use rusty_board::config::{AppConfig, DEFAULT_DATABASE_PATH, DEFAULT_SERVER_ADDRESS};

#[test]
fn default_config_is_valid() {
    let config = AppConfig::default();
    assert!(!config.database_path.is_empty());
    assert!(!config.server_address.is_empty());
}

#[test]
fn default_config_values() {
    let config = AppConfig::default();
    assert_eq!(config.database_path, "rusty_board.db");
    assert_eq!(config.server_address, "0.0.0.0:3000");
    assert_eq!(DEFAULT_DATABASE_PATH, "rusty_board.db");
    assert_eq!(DEFAULT_SERVER_ADDRESS, "0.0.0.0:3000");
}

#[test]
fn settings_replace_defaults_one_by_one() {
    let config = AppConfig::from_settings(None, None);
    assert_eq!(config.database_path, "rusty_board.db");
    assert_eq!(config.server_address, "0.0.0.0:3000");

    let config = AppConfig::from_settings(Some("/tmp/b.db".to_string()), None);
    assert_eq!(config.database_path, "/tmp/b.db");
    assert_eq!(config.server_address, "0.0.0.0:3000");

    let config = AppConfig::from_settings(None, Some("127.0.0.1:80".to_string()));
    assert_eq!(config.database_path, "rusty_board.db");
    assert_eq!(config.server_address, "127.0.0.1:80");

    let config = AppConfig::from_settings(Some(String::new()), Some("x".to_string()));
    assert_eq!(config.database_path, "");
    assert_eq!(config.server_address, "x");
}
