//! Configuration model and its documented defaults.

use vstd::prelude::*;

verus! {

/// Whole application configuration, as read from `config.toml`.
pub struct Config {
    pub server: ServerConfig,
    pub mqtt: MqttConfig,
    pub database: DatabaseConfig,
    pub sampling: SamplingConfig,
    pub retention: RetentionConfig,
    pub logging: LoggingConfig,
    pub api: ApiConfig,
    pub auth: AuthConfig,
}

/// The dashboard password (`[auth]`): the Bearer token of the mobile API,
/// the login password and the key handed out by the pairing code; empty
/// means none is set.
pub struct AuthConfig {
    pub password: String,
}

impl Default for AuthConfig {
    fn default() -> (r: Self)
        ensures
            r.password@ == Seq::<char>::empty(),
    {
        AuthConfig { password: String::new() }
    }
}

/// Key for the mobile API; empty means the API is disabled.
pub struct ApiConfig {
    pub key: String,
}

impl Default for ApiConfig {
    fn default() -> (r: Self)
        ensures
            r.key@ == Seq::<char>::empty(),
    {
        ApiConfig { key: String::new() }
    }
}

pub struct ServerConfig {
    pub host: String,
    pub port: u16,
    pub base_path: String,
    pub trust_proxy_headers: bool,
}

pub struct MqttConfig {
    pub host: String,
    pub port: u16,
    pub username: String,
    pub password: String,
    pub topic_prefix: String,
    pub client_id: String,
}

pub struct DatabaseConfig {
    pub path: String,
}

pub struct SamplingConfig {
    pub interval_seconds: u64,
}

/// How many days each resolution tier of the sample store is kept.
pub struct RetentionConfig {
    pub raw_days: u32,
    pub minute_days: u32,
    pub hourly_days: u32,
}

pub struct LoggingConfig {
    pub level: String,
}

impl Default for LoggingConfig {
    fn default() -> (r: Self)
        ensures
            r.level@ == "info"@,
    {
        LoggingConfig { level: default_log_level() }
    }
}

pub fn default_host() -> (r: String)
    ensures
        r@ == "0.0.0.0"@,
{
    String::from_str("0.0.0.0")
}

pub fn default_port() -> (r: u16)
    ensures
        r == 3000,
{
    3000
}

pub fn default_true() -> (r: bool)
    ensures
        r,
{
    true
}

pub fn default_mqtt_port() -> (r: u16)
    ensures
        r == 1883,
{
    1883
}

pub fn default_topic_prefix() -> (r: String)
    ensures
        r@ == "evcc"@,
{
    String::from_str("evcc")
}

pub fn default_client_id() -> (r: String)
    ensures
        r@ == "evcc_dashboard"@,
{
    String::from_str("evcc_dashboard")
}

pub fn default_db_path() -> (r: String)
    ensures
        r@ == "./data/evcc_dashboard.db"@,
{
    String::from_str("./data/evcc_dashboard.db")
}

pub fn default_interval() -> (r: u64)
    ensures
        r == 5,
{
    5
}

pub fn default_raw_days() -> (r: u32)
    ensures
        r == 7,
{
    7
}

pub fn default_minute_days() -> (r: u32)
    ensures
        r == 90,
{
    90
}

pub fn default_hourly_days() -> (r: u32)
    ensures
        r == 730,
{
    730
}

pub fn default_log_level() -> (r: String)
    ensures
        r@ == "info"@,
{
    String::from_str("info")
}

} // verus!
