//! Application configuration. Reading the configuration file is the host
//! program's business; the values the core consumes live here, with the
//! documented default for each field.

use vstd::prelude::*;

verus! {

/// Configuration values. `session_max_age` (seconds) bounds how long a
/// session may stay idle before it expires.
pub struct AppConfig {
    pub host: String,
    pub port: u16,
    pub cors_allowed_origins: Vec<String>,
    pub database_file: String,
    pub default_admin_username: String,
    pub default_admin_password: String,
    pub session_max_age: u64,
    pub static_file_root: String,
    pub static_file_index: String,
    pub http_caching_max_age: u64,
    pub database_maintenance_interval: u64,
    pub database_quick_checkpoint_interval: u64,
    pub database_full_checkpoint_interval: u64,
    pub client_proxy_url: Option<String>,
}

pub fn default_host() -> (r: String)
    ensures
        r@ == "127.0.0.1"@,
{
    "127.0.0.1".to_owned()
}

pub fn default_port() -> (r: u16)
    ensures
        r == 8080,
{
    8080
}

pub fn default_cors_allowed_origins() -> (r: Vec<String>)
    ensures
        r@.len() == 0,
{
    Vec::new()
}

pub fn default_database_file() -> (r: String)
    ensures
        r@ == "./database.sqlite3"@,
{
    "./database.sqlite3".to_owned()
}

pub fn default_default_admin_username() -> (r: String)
    ensures
        r@ == "admin"@,
{
    "admin".to_owned()
}

pub fn default_default_admin_password() -> (r: String)
    ensures
        r@ == "admin"@,
{
    "admin".to_owned()
}

/// One year of seconds.
pub fn default_session_max_age() -> (r: u64)
    ensures
        r == 31536000,
{
    60 * 60 * 24 * 365
}

pub fn default_static_file_root() -> (r: String)
    ensures
        r@ == "./client/dist/"@,
{
    "./client/dist/".to_owned()
}

pub fn default_static_file_index() -> (r: String)
    ensures
        r@ == "index.html"@,
{
    "index.html".to_owned()
}

/// One day of seconds.
pub fn default_http_caching_max_age() -> (r: u64)
    ensures
        r == 86400,
{
    60 * 60 * 24
}

/// One hour of seconds.
pub fn default_database_maintenance_interval() -> (r: u64)
    ensures
        r == 3600,
{
    60 * 60
}

pub fn default_database_quick_checkpoint_interval() -> (r: u64)
    ensures
        r == 60,
{
    60
}

/// Five minutes of seconds.
pub fn default_database_full_checkpoint_interval() -> (r: u64)
    ensures
        r == 300,
{
    60 * 5
}

} // verus!
