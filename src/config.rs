use std::time::Duration;
use vstd::prelude::*;

use crate::text::{append_decimal, decimal};

verus! {

/// Broker URL used when none is configured.
pub const DEFAULT_NATS_URL: &'static str = "nats://localhost:4222";

/// Connection settings for the message broker.
pub struct NatsConfig {
    pub enabled: bool,
    pub url: String,
    /// Subject prefix prepended to every topic; empty disables prefixing.
    pub base_path: String,
    /// How often to ping the broker to check liveness (seconds).
    pub ping_interval_secs: u64,
    /// Whether to reconnect after a disconnect.
    pub allow_reconnect: bool,
    /// Maximum reconnect attempts; negative means unlimited.
    pub max_reconnects: i32,
}

/// The span of time that `Duration::from_secs(secs)` stands for.
pub uninterp spec fn duration_of_secs(secs: u64) -> Duration;

/// Relies on `Duration::from_secs`, whose result depends on `secs` alone.
#[verifier::external_body]
fn secs_to_duration(secs: u64) -> (r: Duration)
    ensures
        r == duration_of_secs(secs),
{
    Duration::from_secs(secs)
}

/// How many times the driver may reconnect after losing the connection.
#[derive(Clone, Copy, Debug, PartialEq, Eq, Structural)]
pub enum ReconnectLimit {
    Unlimited,
    Limited(usize),
}

/// No reconnects when reconnecting is off; otherwise the configured maximum,
/// where a negative maximum means no limit.
pub open spec fn reconnect_limit_of(allow_reconnect: bool, max_reconnects: i32) -> ReconnectLimit {
    if !allow_reconnect {
        ReconnectLimit::Limited(0)
    } else if max_reconnects >= 0 {
        ReconnectLimit::Limited(max_reconnects as usize)
    } else {
        ReconnectLimit::Unlimited
    }
}

impl NatsConfig {
    /// The reconnect policy this configuration asks for.
    pub fn reconnect_limit(&self) -> (r: ReconnectLimit)
        ensures
            r == reconnect_limit_of(self.allow_reconnect, self.max_reconnects),
    {
        if !self.allow_reconnect {
            ReconnectLimit::Limited(0)
        } else if self.max_reconnects >= 0 {
            ReconnectLimit::Limited(self.max_reconnects as usize)
        } else {
            ReconnectLimit::Unlimited
        }
    }

    pub fn default_ping_interval() -> (r: u64)
        ensures
            r == 20,
    {
        20
    }

    pub fn default_allow_reconnect() -> (r: bool)
        ensures
            r,
    {
        true
    }

    pub fn default_max_reconnects() -> (r: i32)
        ensures
            r == -1,
    {
        -1
    }

    /// The liveness ping interval.
    pub fn ping_interval(&self) -> (r: Duration)
        ensures
            r == duration_of_secs(self.ping_interval_secs),
    {
        secs_to_duration(self.ping_interval_secs)
    }
}

impl Default for NatsConfig {
    fn default() -> (r: Self)
        ensures
            r.enabled,
            r.url@ == DEFAULT_NATS_URL@,
            r.base_path@ == Seq::<char>::empty(),
            r.ping_interval_secs == 20,
            r.allow_reconnect,
            r.max_reconnects == -1,
    {
        NatsConfig {
            enabled: true,
            url: DEFAULT_NATS_URL.to_owned(),
            base_path: String::new(),
            ping_interval_secs: Self::default_ping_interval(),
            allow_reconnect: Self::default_allow_reconnect(),
            max_reconnects: Self::default_max_reconnects(),
        }
    }
}

/// General settings of a service.
pub struct CommonConfig {
    pub name: String,
    pub version: String,
    pub environment: String,
    pub debug: bool,
}

/// Where an HTTP server listens.
pub struct ServerConfig {
    pub host: String,
    pub port: u16,
    pub shutdown_timeout: u64,
    pub cors: bool,
}

/// Database connection settings.
pub struct DatabaseConfig {
    pub driver: String,
    pub host: String,
    pub port: u16,
    pub username: String,
    pub password: String,
    pub database: String,
    pub pool_size: u32,
}

/// The connection URL `postgres://{user}:{password}@{host}:{port}/{database}`.
pub open spec fn db_url(
    username: Seq<char>,
    password: Seq<char>,
    host: Seq<char>,
    port: u16,
    database: Seq<char>,
) -> Seq<char> {
    "postgres://"@ + username + ":"@ + password + "@"@ + host + ":"@ + decimal(port as nat) + "/"@
        + database
}

impl DatabaseConfig {
    /// The database connection URL.
    pub fn get_addr(&self) -> (r: String)
        ensures
            r@ == db_url(self.username@, self.password@, self.host@, self.port, self.database@),
    {
        let mut s = "postgres://".to_owned();
        s.append(self.username.as_str());
        s.append(":");
        s.append(self.password.as_str());
        s.append("@");
        s.append(self.host.as_str());
        s.append(":");
        append_decimal(&mut s, self.port as u64);
        s.append("/");
        s.append(self.database.as_str());
        proof {
            assert(s@ =~= db_url(
                self.username@,
                self.password@,
                self.host@,
                self.port,
                self.database@,
            ));
        }
        s
    }
}

/// One log destination.
pub struct TargetLoggingConfig {
    pub target: Option<String>,
    pub path: Option<String>,
    pub level: String,
}

/// Logging settings.
pub struct LoggingConfig {
    pub level: String,
    pub format: String,
    pub targets: Option<Vec<TargetLoggingConfig>>,
}

/// Telemetry exporter settings.
pub struct ExporterOtelConfig {
    pub protocol: String,
    pub endpoint: String,
    pub timeout: u16,
    pub batch_size: u16,
}

/// Telemetry settings.
pub struct OtelConfig {
    pub enabled: bool,
    pub exporter: ExporterOtelConfig,
}

/// Settings every service shares.
pub struct SharedConfig {
    pub common: CommonConfig,
    pub database: DatabaseConfig,
    pub logging: LoggingConfig,
    pub nats: NatsConfig,
    pub otel: OtelConfig,
}

/// Settings of the HTTP service.
pub struct AppConfig {
    pub shared: SharedConfig,
    pub server: ServerConfig,
}

/// Settings of the background worker.
pub struct WorkerConfig {
    pub shared: SharedConfig,
}

impl AppConfig {
    /// The listen address `{host}:{port}`.
    pub fn addr(&self) -> (r: String)
        ensures
            r@ == self.server.host@ + ":"@ + decimal(self.server.port as nat),
    {
        let mut s = self.server.host.clone();
        s.append(":");
        append_decimal(&mut s, self.server.port as u64);
        s
    }

    /// The broker URL, or the default one when none is configured.
    pub fn nats_addr(&self) -> (r: String)
        ensures
            self.shared.nats.url@.len() == 0 ==> r@ == DEFAULT_NATS_URL@,
            self.shared.nats.url@.len() != 0 ==> r@ == self.shared.nats.url@,
    {
        if self.shared.nats.url.as_str().is_empty() {
            DEFAULT_NATS_URL.to_owned()
        } else {
            self.shared.nats.url.clone()
        }
    }

    /// The database connection URL.
    pub fn get_db_addr(&self) -> (r: String)
        ensures
            r@ == db_url(
                self.shared.database.username@,
                self.shared.database.password@,
                self.shared.database.host@,
                self.shared.database.port,
                self.shared.database.database@,
            ),
    {
        self.shared.database.get_addr()
    }
}

} // verus!
