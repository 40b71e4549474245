use std::time::Duration;

use ro_messaging::config::{
    AppConfig, CommonConfig, DatabaseConfig, ExporterOtelConfig, LoggingConfig, NatsConfig,
    OtelConfig, ReconnectLimit, ServerConfig, SharedConfig,
};
use ro_messaging::domain::{DbContext, HandlerContext, User, UserInfo};

fn app_config(url: &str) -> AppConfig {
    let mut nats = NatsConfig::default();
    nats.url = url.to_string();
    AppConfig {
        shared: SharedConfig {
            common: CommonConfig {
                name: "api".to_string(),
                version: "1.0".to_string(),
                environment: "test".to_string(),
                debug: false,
            },
            database: DatabaseConfig {
                driver: "postgres".to_string(),
                host: "db".to_string(),
                port: 5432,
                username: "u".to_string(),
                password: "p".to_string(),
                database: "main".to_string(),
                pool_size: 4,
            },
            logging: LoggingConfig { level: "info".to_string(), format: "json".to_string(), targets: None },
            nats,
            otel: OtelConfig {
                enabled: false,
                exporter: ExporterOtelConfig {
                    protocol: "grpc".to_string(),
                    endpoint: "http://otel:4317".to_string(),
                    timeout: 10,
                    batch_size: 512,
                },
            },
        },
        server: ServerConfig { host: "0.0.0.0".to_string(), port: 8080, shutdown_timeout: 30, cors: true },
    }
}

#[test]
fn nats_defaults() {
    let c = NatsConfig::default();
    assert!(c.enabled);
    assert_eq!(c.url, "nats://localhost:4222");
    assert_eq!(c.base_path, "");
    assert_eq!(c.ping_interval_secs, 20);
    assert_eq!(c.ping_interval(), Duration::from_secs(20));
    assert!(c.allow_reconnect);
    assert_eq!(c.max_reconnects, -1);
}

#[test]
fn ping_interval_follows_setting() {
    let mut c = NatsConfig::default();
    c.ping_interval_secs = 7;
    assert_eq!(c.ping_interval(), Duration::from_secs(7));
}

#[test]
fn reconnect_policy() {
    let mut c = NatsConfig::default();
    assert_eq!(c.reconnect_limit(), ReconnectLimit::Unlimited);
    c.max_reconnects = 5;
    assert_eq!(c.reconnect_limit(), ReconnectLimit::Limited(5));
    c.allow_reconnect = false;
    assert_eq!(c.reconnect_limit(), ReconnectLimit::Limited(0));
}

#[test]
fn addresses() {
    let c = app_config("nats://broker:4222");
    assert_eq!(c.addr(), "0.0.0.0:8080");
    assert_eq!(c.get_db_addr(), "postgres://u:p@db:5432/main");
    assert_eq!(c.shared.database.get_addr(), "postgres://u:p@db:5432/main");
    assert_eq!(c.nats_addr(), "nats://broker:4222");
}

#[test]
fn nats_addr_defaults_when_empty() {
    let c = app_config("");
    assert_eq!(c.nats_addr(), "nats://localhost:4222");
}

#[test]
fn port_zero_and_largest() {
    let mut c = app_config("x");
    c.server.port = 0;
    assert_eq!(c.addr(), "0.0.0.0:0");
    c.server.port = 65535;
    assert_eq!(c.addr(), "0.0.0.0:65535");
}

#[test]
fn domain_values() {
    let u = User::new("1".to_string(), "ann".to_string(), "a@x.io".to_string());
    assert!(u.active);
    assert_eq!(u.username, "ann");
    assert_eq!(DbContext::system().id, "system");
    assert_eq!(DbContext::new("42".to_string()).id, "42");
    let ctx = HandlerContext::new(Some(UserInfo { id: "9".to_string() }));
    assert_eq!(ctx.authenticated_user().map(|u| u.id.as_str()), Some("9"));
    assert!(HandlerContext::new(None).authenticated_user().is_none());
}
