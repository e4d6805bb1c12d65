use ntfy_rs::config::{Cli, Config, FileConfig};
use ntfy_rs::schema::{pending_migrations, SCHEMA_VERSION};
use ntfy_rs::state::AppState;

fn config() -> Config {
    Config::resolve(
        FileConfig::default(),
        &Cli {
            config: "server.toml".to_string(),
            listen_http: None,
            cache_file: None,
            log_level: "info".to_string(),
            base_url: None,
        },
    )
}

#[test]
fn effective_auth_db_prefers_the_auth_pool() {
    let s: AppState<&str, (), ()> = AppState::new(config(), "messages", Some("auth"), (), ());
    assert_eq!(*s.effective_auth_db(), "auth");
    let t: AppState<&str, (), ()> = AppState::new(config(), "messages", None, (), ());
    assert_eq!(*t.effective_auth_db(), "messages");
    assert_eq!(t.config.listen_http, ":2586");
}

#[test]
fn migrations_still_needed() {
    assert_eq!(pending_migrations(0), vec![1, 2]);
    assert_eq!(pending_migrations(1), vec![2]);
    assert_eq!(pending_migrations(SCHEMA_VERSION), Vec::<u32>::new());
    assert_eq!(pending_migrations(7), Vec::<u32>::new());
}
