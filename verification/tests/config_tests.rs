use std::path::PathBuf;

use sprout::config::{
    api_key_from, base_dir, default_config_path, default_host, default_port, default_require_auth, generate_api_key, resolve_path,
    Config, ConfigError, API_KEY_LEN, DEFAULT_PORT,
};

fn config_with(cert: Option<&str>, key: Option<&str>) -> Config {
    Config {
        tls_cert_path: cert.map(|c| c.to_string()),
        tls_key_path: key.map(|k| k.to_string()),
        ..Config::default()
    }
}

#[test]
fn accepts_tls_certificate_and_key_together() {
    let config = Config {
        tls_cert_path: Some("certs/server.crt".to_string()),
        tls_key_path: Some("certs/server.key".to_string()),
        ..Config::default()
    };

    let paths = config
        .tls_paths("/etc/sprout/config.toml")
        .unwrap()
        .unwrap();
    assert_eq!(PathBuf::from(paths.0), PathBuf::from("/etc/sprout/certs/server.crt"));
    assert_eq!(PathBuf::from(paths.1), PathBuf::from("/etc/sprout/certs/server.key"));
}

#[test]
fn rejects_incomplete_tls_configuration() {
    let config = Config {
        tls_cert_path: Some("server.crt".to_string()),
        ..Config::default()
    };

    assert!(config.tls_paths("config.toml").is_err());
}

#[test]
fn tls_paths_without_tls_are_none() {
    let config = config_with(None, None);
    assert!(config.tls_paths("/etc/sprout/config.toml").unwrap().is_none());
    assert_eq!(config.validate(), Ok(()));
}

#[test]
fn tls_paths_reject_key_alone_and_empty_paths() {
    let only_key = config_with(None, Some("server.key"));
    assert_eq!(only_key.tls_paths("/etc/config.toml"), Err(ConfigError::IncompleteTls));
    assert_eq!(only_key.validate(), Err(ConfigError::IncompleteTls));
    let empty_cert = config_with(Some(""), Some("server.key"));
    assert_eq!(empty_cert.tls_paths("/etc/config.toml"), Err(ConfigError::IncompleteTls));
    assert_eq!(empty_cert.validate(), Err(ConfigError::IncompleteTls));
    let empty_key = config_with(Some("server.crt"), Some(""));
    assert_eq!(empty_key.validate(), Err(ConfigError::IncompleteTls));
    let only_cert = config_with(Some("server.crt"), None);
    assert_eq!(only_cert.validate(), Err(ConfigError::IncompleteTls));
}

#[test]
fn tls_paths_and_validate_agree() {
    let cases = [
        config_with(None, None),
        config_with(Some("a.crt"), Some("a.key")),
        config_with(Some("a.crt"), None),
        config_with(Some(""), Some("")),
    ];
    for config in cases.iter() {
        assert_eq!(config.tls_paths("/srv/config.toml").is_ok(), config.validate().is_ok());
    }
}

#[test]
fn absolute_tls_paths_are_kept() {
    let config = config_with(Some("/certs/server.crt"), Some("keys/server.key"));
    let (cert, key) = config.tls_paths("/etc/sprout/config.toml").unwrap().unwrap();
    assert_eq!(cert, "/certs/server.crt");
    assert_eq!(PathBuf::from(key), PathBuf::from("/etc/sprout/keys/server.key"));
}

#[test]
fn relative_tls_paths_next_to_a_bare_config_name() {
    let config = config_with(Some("server.crt"), Some("server.key"));
    let (cert, key) = config.tls_paths("config.toml").unwrap().unwrap();
    assert_eq!(cert, "server.crt");
    assert_eq!(key, "server.key");
}

#[test]
fn relative_tls_paths_against_the_root() {
    let config = config_with(Some("server.crt"), Some("server.key"));
    let (cert, _) = config.tls_paths("/").unwrap().unwrap();
    assert_eq!(PathBuf::from(cert), PathBuf::from("./server.crt"));
}

#[test]
fn base_dir_falls_back_to_current_directory() {
    assert_eq!(base_dir(None), ".");
    assert_eq!(base_dir(Some("/etc".to_string())), "/etc");
}

#[test]
fn resolve_path_joins_relative_only() {
    assert_eq!(PathBuf::from(resolve_path("/a/b", "c/d")), PathBuf::from("/a/b/c/d"));
    assert_eq!(resolve_path("/a/b", "/c"), "/c");
}

#[test]
fn defaults_match_the_documented_configuration() {
    assert_eq!(default_host(), "127.0.0.1");
    assert_eq!(default_port(), 8477);
    assert_eq!(DEFAULT_PORT, 8477);
    assert!(default_require_auth());
    let config = Config::default();
    assert_eq!(config.host, "127.0.0.1");
    assert_eq!(config.port, 8477);
    assert!(config.require_auth);
    assert!(config.tls_cert_path.is_none());
    assert!(config.tls_key_path.is_none());
    assert_eq!(config.api_key.chars().count(), 32);
    assert_eq!(config.validate(), Ok(()));
    assert!(config.tls_paths("/etc/sprout/config.toml").unwrap().is_none());
}

#[test]
fn generated_keys_are_32_alphanumerics() {
    let key = generate_api_key();
    assert_eq!(API_KEY_LEN, 32);
    assert_eq!(key.len(), 32);
    assert!(key.chars().all(|c| c.is_ascii_alphanumeric()));
}

#[test]
fn blank_api_key_is_regenerated() {
    let config = Config { api_key: " \t\n".to_string(), ..Config::default() };
    let (settled, generated) = config.ensure_api_key();
    assert!(generated);
    assert_eq!(settled.api_key.len(), 32);
    assert!(settled.api_key.chars().all(|c| c.is_ascii_alphanumeric()));
    assert_eq!(settled.host, "127.0.0.1");
    let kept = settled.api_key.clone();
    let (again, generated_again) = settled.ensure_api_key();
    assert!(!generated_again);
    assert_eq!(again.api_key, kept);
}

#[test]
fn empty_api_key_is_regenerated() {
    let config = Config { api_key: String::new(), ..Config::default() };
    let (settled, generated) = config.ensure_api_key();
    assert!(generated);
    assert_eq!(settled.api_key.len(), 32);
}

#[test]
fn present_api_key_is_kept() {
    let config = Config { api_key: "  secret ".to_string(), port: 9000, ..Config::default() };
    let (settled, generated) = config.ensure_api_key();
    assert!(!generated);
    assert_eq!(settled.api_key, "  secret ");
    assert_eq!(settled.port, 9000);
}

#[test]
fn bearer_token_is_required_when_auth_is_on() {
    let config = Config { api_key: "abc123".to_string(), ..Config::default() };
    assert!(config.authorizes(Some("Bearer abc123")));
    assert!(!config.authorizes(Some("Bearer abc124")));
    assert!(!config.authorizes(Some("abc123")));
    assert!(!config.authorizes(Some("bearer abc123")));
    assert!(!config.authorizes(None));
}

#[test]
fn anything_passes_when_auth_is_off() {
    let config = Config { api_key: "abc123".to_string(), require_auth: false, ..Config::default() };
    assert!(config.authorizes(None));
    assert!(config.authorizes(Some("Bearer wrong")));
}

#[test]
fn incomplete_tls_message() {
    assert_eq!(
        ConfigError::IncompleteTls.message(),
        "tls_cert_path and tls_key_path must both be configured"
    );
}

#[test]
fn api_key_is_made_of_the_draws() {
    let draws: Vec<char> = "abcdefghijklmnopqrstuvwxyzABCDEF".chars().collect();
    assert_eq!(api_key_from(&draws), "abcdefghijklmnopqrstuvwxyzABCDEF");
    let digits: Vec<char> = "0123456789012345678901234567890Z".chars().collect();
    assert_eq!(api_key_from(&digits), "0123456789012345678901234567890Z");
}

#[test]
fn default_config_path_inside_the_config_dir() {
    assert_eq!(
        PathBuf::from(default_config_path(Some("/home/u/.config".to_string()))),
        PathBuf::from("/home/u/.config/sprout/config.toml")
    );
    assert_eq!(default_config_path(None), "config.toml");
}
