//! Configuration consumed by the service: HTTP server settings, database
//! connection settings, and the authentication secret. Loading it from disk
//! is the embedding process's concern; this module fixes the shape and the
//! defaults.

use vstd::prelude::*;

verus! {

/// HTTP server settings.
pub struct ServerConfig {
    pub port: u16,
    pub content_dir: String,
    pub client_secret_path: String,
    pub compression: Compression,
}

/// Which response compressions the server offers.
pub struct Compression {
    pub zstd: bool,
    pub br: bool,
    pub gzip: bool,
}

/// Database connection settings; the address is kept as a dotted-quad
/// string.
pub struct DatabaseConfig {
    pub ip: String,
    pub port: u16,
    pub timeout: u64,
    pub username: String,
    pub password: String,
    pub dbname: String,
}

/// Authentication settings: the process-wide symmetric signing secret.
pub struct AuthConfig {
    pub jwt_secret: String,
}

/// The whole configuration.
pub struct Config {
    pub server: ServerConfig,
    pub database: DatabaseConfig,
    pub auth: AuthConfig,
}

impl Default for Config {
    /// The configuration written out for the operator to edit when none
    /// exists yet.
    fn default() -> (r: Config)
        ensures
            r.server.port == 8080,
            r.server.content_dir@ == "html"@,
            r.server.client_secret_path@ == "secret.json"@,
            r.server.compression.zstd && r.server.compression.br && r.server.compression.gzip,
            r.database.ip@ == "127.0.0.1"@,
            r.database.port == 5432,
            r.database.timeout == 5,
            r.database.username@ == "username"@,
            r.database.password@ == "password"@,
            r.database.dbname@ == "photoarchiver"@,
            r.auth.jwt_secret@ == "changeme"@,
    {
        Config {
            server: ServerConfig {
                port: 8080,
                content_dir: "html".to_owned(),
                client_secret_path: "secret.json".to_owned(),
                compression: Compression { zstd: true, br: true, gzip: true },
            },
            database: DatabaseConfig {
                ip: "127.0.0.1".to_owned(),
                port: 5432,
                timeout: 5,
                username: "username".to_owned(),
                password: "password".to_owned(),
                dbname: "photoarchiver".to_owned(),
            },
            auth: AuthConfig { jwt_secret: "changeme".to_owned() },
        }
    }
}

} // verus!
