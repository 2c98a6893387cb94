//! Configuration of the server: transport, catalog, storage backend choice,
//! authentication, upstream mirror and monitoring knobs. The storage section
//! is the input of the blob store's backend selection; everything is plain
//! data, read from the environment by the binary around this library.

use crate::strutil::str_eq;
use vstd::prelude::*;
use vstd::string::StringExecFns;

verus! {

#[derive(Debug)]
pub struct ServerConfig {
    pub host: String,
    pub port: u16,
    pub environment: String,
    pub cors_origins: Vec<String>,
    pub rate_limit_requests_per_minute: u32,
}

#[derive(Debug)]
pub struct DatabaseConfig {
    pub url: String,
    pub max_connections: u32,
    pub min_connections: u32,
}

/// Which blob backend the registry runs on.
#[derive(Debug, Clone, Copy, PartialEq, Eq, Structural)]
pub enum StorageBackend {
    Local,
    S3,
}

/// Settings of an S3-compatible object store, MinIO included.
#[derive(Debug)]
pub struct S3Config {
    pub bucket: String,
    pub region: String,
    pub endpoint: Option<String>,
    pub access_key: String,
    pub secret_key: String,
    pub path_style: bool,
    pub use_ssl: bool,
    pub public_url: Option<String>,
}

#[derive(Debug)]
pub struct StorageConfig {
    pub backend: StorageBackend,
    pub local_path: String,
    pub s3: Option<S3Config>,
}

#[derive(Debug)]
pub struct GitHubOAuthConfig {
    pub client_id: String,
    pub client_secret: String,
    pub redirect_url: String,
}

#[derive(Debug)]
pub struct AuthConfig {
    pub jwt_secret: String,
    pub session_duration_hours: i64,
    pub bcrypt_cost: u32,
    pub github_oauth: Option<GitHubOAuthConfig>,
}

#[derive(Debug)]
pub struct GitHubConfig {
    pub api_token: Option<String>,
    pub user_agent: String,
    pub rate_limit_per_hour: u32,
}

#[derive(Debug)]
pub struct CratesIoMirrorConfig {
    pub enabled: bool,
    pub upstream_url: String,
    pub sync_interval_hours: u32,
    pub cache_duration_hours: u32,
}

#[derive(Debug)]
pub struct RegistryConfig {
    pub name: String,
    pub url: String,
    pub description: String,
    pub crates_io_mirror: CratesIoMirrorConfig,
    pub organizations_enabled: bool,
    pub public_registration: bool,
}

#[derive(Debug)]
pub struct MonitoringConfig {
    pub metrics_enabled: bool,
    pub health_check_enabled: bool,
    pub log_level: String,
}

#[derive(Debug)]
pub struct AppConfig {
    pub server: ServerConfig,
    pub database: DatabaseConfig,
    pub storage: StorageConfig,
    pub auth: AuthConfig,
    pub github: GitHubConfig,
    pub registry: RegistryConfig,
    pub monitoring: MonitoringConfig,
}

impl Default for AppConfig {
    /// The built-in development defaults: a local listener, a local SQLite
    /// catalog, local blob storage, and the mirror switched off.
    fn default() -> (r: AppConfig)
        ensures
            r.server.host@ == "127.0.0.1"@,
            r.server.port == 8080,
            r.server.environment@ == "development"@,
            r.server.cors_origins@.len() == 1,
            r.server.cors_origins@[0]@ == "*"@,
            r.server.rate_limit_requests_per_minute == 60,
            r.database.url@ == "sqlite:data/ghostcrate.db"@,
            r.database.max_connections == 10,
            r.database.min_connections == 1,
            r.storage.backend == StorageBackend::Local,
            r.storage.local_path@ == "./data"@,
            r.storage.s3 is None,
            r.auth.jwt_secret@ == "change-this-in-production"@,
            r.auth.session_duration_hours == 168,
            r.auth.bcrypt_cost == 12,
            r.auth.github_oauth is None,
            r.github.api_token is None,
            r.github.user_agent@ == "GhostCrate/0.2.0"@,
            r.github.rate_limit_per_hour == 5000,
            r.registry.name@ == "GhostCrate"@,
            r.registry.url@ == "http://localhost:8080"@,
            r.registry.description@ == "Self-hosted Rust crate registry"@,
            !r.registry.crates_io_mirror.enabled,
            r.registry.crates_io_mirror.upstream_url@ == "https://crates.io"@,
            r.registry.crates_io_mirror.sync_interval_hours == 24,
            r.registry.crates_io_mirror.cache_duration_hours == 6,
            r.registry.organizations_enabled,
            r.registry.public_registration,
            r.monitoring.metrics_enabled,
            r.monitoring.health_check_enabled,
            r.monitoring.log_level@ == "info"@,
    {
        let mut cors_origins: Vec<String> = Vec::new();
        cors_origins.push(String::from_str("*"));
        AppConfig {
            server: ServerConfig {
                host: String::from_str("127.0.0.1"),
                port: 8080,
                environment: String::from_str("development"),
                cors_origins,
                rate_limit_requests_per_minute: 60,
            },
            database: DatabaseConfig {
                url: String::from_str("sqlite:data/ghostcrate.db"),
                max_connections: 10,
                min_connections: 1,
            },
            storage: StorageConfig {
                backend: StorageBackend::Local,
                local_path: String::from_str("./data"),
                s3: None,
            },
            auth: AuthConfig {
                jwt_secret: String::from_str("change-this-in-production"),
                session_duration_hours: 168,
                bcrypt_cost: 12,
                github_oauth: None,
            },
            github: GitHubConfig {
                api_token: None,
                user_agent: String::from_str("GhostCrate/0.2.0"),
                rate_limit_per_hour: 5000,
            },
            registry: RegistryConfig {
                name: String::from_str("GhostCrate"),
                url: String::from_str("http://localhost:8080"),
                description: String::from_str("Self-hosted Rust crate registry"),
                crates_io_mirror: CratesIoMirrorConfig {
                    enabled: false,
                    upstream_url: String::from_str("https://crates.io"),
                    sync_interval_hours: 24,
                    cache_duration_hours: 6,
                },
                organizations_enabled: true,
                public_registration: true,
            },
            monitoring: MonitoringConfig {
                metrics_enabled: true,
                health_check_enabled: true,
                log_level: String::from_str("info"),
            },
        }
    }
}

impl AppConfig {
    /// The configured environment is the production one.
    pub fn is_production(&self) -> (r: bool)
        ensures
            r == (self.server.environment@ == "production"@),
    {
        str_eq(self.server.environment.as_str(), "production")
    }

    /// The configured environment is the development one.
    pub fn is_development(&self) -> (r: bool)
        ensures
            r == (self.server.environment@ == "development"@),
    {
        str_eq(self.server.environment.as_str(), "development")
    }
}

} // verus!
