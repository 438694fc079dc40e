//! The configuration of the process and the addresses derived from it.

use vstd::prelude::*;
use vstd::string::StringExecFns;
use crate::infrastructure::logger::{LogFormat, LogLevel, LogRotation};
use crate::infrastructure::text;
use crate::infrastructure::text::decimal_text;

verus! {

/// Everything the process is configured with. It is loaded once and
/// never changed afterwards.
#[derive(Debug, Clone)]
pub struct Config {
    pub db: DbConfig,
    pub server: ServerConfig,
    pub logger: LoggerConfig,
    pub jwt: Option<JWTConfig>,
}

/// Where the server listens and how it presents itself.
#[derive(Debug, Clone)]
pub struct ServerConfig {
    pub port: u32,
    pub host: String,
    /// The path under which every route is mounted.
    pub prefix: Option<String>,
    /// The value of the `Server` header.
    pub ident: Option<String>,
}

/// Settings of token signing.
#[derive(Debug, Clone)]
pub struct JWTConfig {
    pub secret: String,
    pub expiration: u64,
}

/// What is logged, and where.
#[derive(Debug, Clone)]
pub struct LoggerConfig {
    pub stdout: bool,
    pub level: LogLevel,
    pub format: LogFormat,
    pub file: Option<LoggerFileAppenderConfig>,
}

/// The rolling log file.
#[derive(Debug, Clone)]
pub struct LoggerFileAppenderConfig {
    pub enable: bool,
    pub level: LogLevel,
    pub non_blocking: bool,
    pub format: LogFormat,
    pub rotation: LogRotation,
    pub dir: Option<String>,
    pub max_log_files: usize,
}

/// How to reach a client-server database.
#[derive(Debug, Clone)]
pub struct PgDbConfig {
    pub host: String,
    pub port: u32,
    pub user: String,
    pub password: String,
    pub name: String,
}

/// The database behind the service: a server, or a file.
#[derive(Debug, Clone)]
pub struct DbConfig {
    pub pg: Option<PgDbConfig>,
    pub sqlite: Option<String>,
}

/// The variable of the environment that names the profile.
pub const PROFILE_VARIABLE: &'static str = "APP_ENV_PROFILE";

/// The deployment profile: the name under which a configuration is kept.
#[derive(Debug, Clone)]
pub struct Profile {
    pub name: String,
}

/// Where values of the configuration come from.
#[derive(Debug)]
pub enum Source {
    /// The file at this path.
    File(String),
    /// The variables of the environment, each under the name of the
    /// value it gives.
    Environment,
}

/// The backend that a database configuration selects.
#[derive(Debug, Clone, Copy, PartialEq, Eq, Structural)]
pub enum Backend {
    /// A database kept in a file, with no server of its own.
    Sqlite,
    /// A database served over the network.
    Postgres,
}

/// The name of the profile that is used where none is asked for.
pub open spec fn default_profile() -> Seq<char> {
    "dev"@
}

/// Whether `name` is one of the spellings of the production profile.
pub open spec fn production_name(name: Seq<char>) -> bool {
    name == "prod"@ || name == "production"@
}

/// The file that holds the configuration of the profile `name`.
pub open spec fn path_of(name: Seq<char>) -> Seq<char> {
    "configs/"@ + name + ".yaml"@
}

/// The address of the client-server database that `pg` describes.
pub open spec fn pg_url(pg: &PgDbConfig) -> Seq<char> {
    "postgres://"@ + pg.user@ + ":"@ + pg.password@ + "@"@ + pg.host@ + ":"@
        + text::decimal(pg.port as nat) + "/"@ + pg.name@
        + "?sslmode=disable"@
}

impl Profile {
    /// The profile that a request for `value` selects: `value` itself, or
    /// `dev` where nothing was asked for.
    pub fn resolve(value: Option<String>) -> (profile: Self)
        ensures
            profile.name@ == (match value {
                Some(name) => name@,
                None => default_profile(),
            }),
    {
        match value {
            Some(name) => Profile { name },
            None => Profile { name: String::from_str("dev") },
        }
    }

    /// Whether this is the production profile.
    pub fn is_production(&self) -> (production: bool)
        ensures
            production == production_name(self.name@),
    {
        self.name == String::from_str("prod") || self.name == String::from_str("production")
    }

    /// Whether verbose backtraces are switched on under this profile:
    /// everywhere but in production.
    pub fn enables_backtrace(&self) -> (enabled: bool)
        ensures
            enabled == !production_name(self.name@),
    {
        !self.is_production()
    }

    /// The file that holds this profile's configuration.
    pub fn config_path(&self) -> (path: String)
        ensures
            path@ == path_of(self.name@),
    {
        let mut path = String::from_str("configs/");
        path.append(self.name.as_str());
        path.append(".yaml");
        path
    }

    /// The sources of this profile's configuration, in the order in
    /// which they are read: the profile's file, then the environment.
    /// Where two sources give the same value, the later one is taken, so
    /// the environment wins over the file.
    pub fn sources(&self) -> (sources: Vec<Source>)
        ensures
            sources@.len() == 2,
            sources@[0] matches Source::File(path) && path@ == path_of(self.name@),
            sources@[1] is Environment,
    {
        let mut sources: Vec<Source> = Vec::new();
        sources.push(Source::File(self.config_path()));
        sources.push(Source::Environment);
        sources
    }
}

impl ServerConfig {
    /// The address the server listens on: the host, a colon, the port.
    #[must_use]
    pub fn url(&self) -> (url: String)
        ensures
            url@ == self.host@ + ":"@ + text::decimal(self.port as nat),
    {
        let mut url = self.host.clone();
        url.append(":");
        url.append(decimal_text(self.port).as_str());
        url
    }
}

impl DbConfig {
    /// The address of the configured database.
    pub open spec fn spec_url(&self) -> Seq<char> {
        match (self.sqlite, self.pg) {
            (Some(path), _) => "sqlite://"@ + path@,
            (None, Some(pg)) => pg_url(&pg),
            (None, None) => Seq::empty(),
        }
    }

    /// The backend that is configured; the file wins where both are.
    pub open spec fn spec_backend(&self) -> Option<Backend> {
        match (self.sqlite, self.pg) {
            (Some(_), _) => Some(Backend::Sqlite),
            (None, Some(_)) => Some(Backend::Postgres),
            (None, None) => None,
        }
    }

    /// The address of the configured database: that of the file where one
    /// is named, else that of the server, else the empty text. The text
    /// is empty exactly when no backend is configured.
    #[must_use]
    pub fn url(&self) -> (url: String)
        ensures
            url@ == self.spec_url(),
            url@.len() == 0 <==> self.spec_backend() is None,
    {
        proof {
            reveal_strlit("sqlite://");
            reveal_strlit("postgres://");
        }
        if let Some(path) = self.sqlite.as_ref() {
            let mut url = String::from_str("sqlite://");
            url.append(path.as_str());
            return url;
        } else if let Some(pg) = self.pg.as_ref() {
            let mut url = String::from_str("postgres://");
            url.append(pg.user.as_str());
            url.append(":");
            url.append(pg.password.as_str());
            url.append("@");
            url.append(pg.host.as_str());
            url.append(":");
            url.append(decimal_text(pg.port).as_str());
            url.append("/");
            url.append(pg.name.as_str());
            url.append("?sslmode=disable");
            return url;
        }
        String::new()
    }

    /// The backend to open, or `None` where the configuration names
    /// neither: a caller has to refuse such a configuration before it
    /// asks for an address.
    pub fn backend(&self) -> (backend: Option<Backend>)
        ensures
            backend == self.spec_backend(),
    {
        if self.sqlite.is_some() {
            Some(Backend::Sqlite)
        } else if self.pg.is_some() {
            Some(Backend::Postgres)
        } else {
            None
        }
    }
}

} // verus!
