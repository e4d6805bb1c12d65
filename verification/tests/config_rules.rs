use ntfy_rs::config::{
    normalise_listen_addr, Cli, Config, DefaultAccess, FileConfig, DEFAULT_CACHE_DURATION_SECS,
    DEFAULT_KEEPALIVE_SECS, DEFAULT_LISTEN_HTTP, DEFAULT_MANAGER_INTERVAL_SECS,
    DEFAULT_MESSAGE_SIZE_LIMIT, DEFAULT_REQUEST_LIMIT_BURST, DEFAULT_REQUEST_LIMIT_REPLENISH_SECS,
    DEFAULT_SUBSCRIPTION_LIMIT,
};

fn cli() -> Cli {
    Cli {
        config: "server.toml".to_string(),
        listen_http: None,
        cache_file: None,
        log_level: "info".to_string(),
        base_url: None,
    }
}

#[test]
fn defaults_apply_when_nothing_is_set() {
    let c = Config::resolve(FileConfig::default(), &cli());
    assert_eq!(c.listen_http, DEFAULT_LISTEN_HTTP);
    assert_eq!(c.listen_http, ":2586");
    assert_eq!(c.base_url, "");
    assert_eq!(c.cache_file, None);
    assert_eq!(c.cache_duration_secs, DEFAULT_CACHE_DURATION_SECS);
    assert_eq!(c.cache_duration_secs, 43200);
    assert_eq!(c.message_size_limit, DEFAULT_MESSAGE_SIZE_LIMIT);
    assert_eq!(c.message_size_limit, 4096);
    assert_eq!(c.request_limit_burst, DEFAULT_REQUEST_LIMIT_BURST);
    assert_eq!(c.request_limit_replenish_secs, DEFAULT_REQUEST_LIMIT_REPLENISH_SECS);
    assert_eq!(c.subscription_limit, DEFAULT_SUBSCRIPTION_LIMIT);
    assert_eq!(c.keepalive_secs, DEFAULT_KEEPALIVE_SECS);
    assert_eq!(c.manager_interval_secs, DEFAULT_MANAGER_INTERVAL_SECS);
    assert_eq!(c.manager_interval_secs, 180);
    assert!(!c.auth_enabled);
    assert_eq!(c.auth_file, None);
    assert_eq!(c.default_access, DefaultAccess::ReadWrite);
    assert_eq!(DefaultAccess::default(), DefaultAccess::ReadWrite);
}

#[test]
fn command_line_overrides_file() {
    let mut file = FileConfig::default();
    file.listen_http = Some("127.0.0.1:1".to_string());
    file.base_url = Some("https://file.example".to_string());
    file.cache_file = Some("file.db".to_string());
    let mut args = cli();
    args.listen_http = Some(":9000".to_string());
    args.base_url = Some("https://cli.example".to_string());
    args.cache_file = Some("cli.db".to_string());
    let c = Config::resolve(file, &args);
    assert_eq!(c.listen_http, ":9000");
    assert_eq!(c.base_url, "https://cli.example");
    assert_eq!(c.cache_file, Some("cli.db".to_string()));
}

#[test]
fn file_values_apply_without_command_line() {
    let mut file = FileConfig::default();
    file.listen_http = Some("127.0.0.1:1".to_string());
    file.base_url = Some("https://file.example".to_string());
    file.cache_file = Some("file.db".to_string());
    file.cache_duration = Some(60);
    file.message_size_limit = Some(10);
    file.request_limit_burst = Some(1);
    file.request_limit_replenish = Some(2);
    file.subscription_limit = Some(3);
    file.keepalive_interval = Some(4);
    file.manager_interval = Some(5);
    file.default_access = Some(DefaultAccess::DenyAll);
    let c = Config::resolve(file, &cli());
    assert_eq!(c.listen_http, "127.0.0.1:1");
    assert_eq!(c.base_url, "https://file.example");
    assert_eq!(c.cache_file, Some("file.db".to_string()));
    assert_eq!(c.cache_duration_secs, 60);
    assert_eq!(c.message_size_limit, 10);
    assert_eq!(c.request_limit_burst, 1);
    assert_eq!(c.request_limit_replenish_secs, 2);
    assert_eq!(c.subscription_limit, 3);
    assert_eq!(c.keepalive_secs, 4);
    assert_eq!(c.manager_interval_secs, 5);
    assert_eq!(c.default_access, DefaultAccess::DenyAll);
    assert!(!c.auth_enabled);
}

#[test]
fn auth_is_enabled_by_an_auth_file() {
    let mut file = FileConfig::default();
    file.auth_file = Some("auth.db".to_string());
    let c = Config::resolve(file, &cli());
    assert!(c.auth_enabled);
    assert_eq!(c.auth_file, Some("auth.db".to_string()));
}

#[test]
fn listen_address_shorthand() {
    assert_eq!(normalise_listen_addr(":2586"), "0.0.0.0:2586");
    assert_eq!(normalise_listen_addr("127.0.0.1:2586"), "127.0.0.1:2586");
    assert_eq!(normalise_listen_addr(""), "");
}
