//! Configuration values: the runtime environment, where the application listens,
//! and how it reaches its database.

use vstd::prelude::*;

verus! {

/// The lowercase form of `s`, as Unicode case mapping gives it.
pub uninterp spec fn lowercase_of(s: Seq<char>) -> Seq<char>;

/// Relies on `str::to_lowercase`: the result depends on the text alone.
#[verifier::external_body]
fn to_lowercase(s: &str) -> (r: String)
    ensures
        r@ == lowercase_of(s@),
{
    s.to_lowercase()
}

/// The environment the application runs in; it picks the configuration file.
#[derive(Clone, Copy, Debug, PartialEq, Eq, Structural)]
pub enum Environment {
    Local,
    Production,
}

pub open spec fn unsupported_environment_message(s: Seq<char>) -> Seq<char> {
    s + " is not a supported environment. Use either `local` or `production`."@
}

impl Environment {
    /// The environment's name, which is also the name of its configuration file.
    pub fn as_str(&self) -> (r: &'static str)
        ensures
            *self == Environment::Local ==> r@ == "local"@,
            *self == Environment::Production ==> r@ == "production"@,
    {
        match self {
            Environment::Local => "local",
            Environment::Production => "production",
        }
    }

    /// The environment named by `s`, which must be written in lowercase.
    pub fn from_lowercase(s: &str) -> (r: Result<Environment, String>)
        ensures
            s@ == "local"@ <==> r == Ok::<Environment, String>(Environment::Local),
            s@ == "production"@ <==> r == Ok::<Environment, String>(Environment::Production),
            r is Err <==> s@ != "local"@ && s@ != "production"@,
            r matches Err(e) ==> e@ == unsupported_environment_message(s@),
    {
        proof {
            reveal_strlit("local");
            reveal_strlit("production");
            assert("local"@.len() != "production"@.len());
        }
        if crate::text::same_text(s, "local") {
            Ok(Environment::Local)
        } else if crate::text::same_text(s, "production") {
            Ok(Environment::Production)
        } else {
            let mut message = String::from_str(s);
            message.append(" is not a supported environment. Use either `local` or `production`.");
            Err(message)
        }
    }

    /// The environment named by `s`, in any case.
    pub fn parse(s: &str) -> (r: Result<Environment, String>)
        ensures
            lowercase_of(s@) == "local"@ <==> r == Ok::<Environment, String>(Environment::Local),
            lowercase_of(s@) == "production"@ <==> r == Ok::<Environment, String>(
                Environment::Production,
            ),
            r is Err <==> lowercase_of(s@) != "local"@ && lowercase_of(s@) != "production"@,
            r matches Err(e) ==> e@ == unsupported_environment_message(lowercase_of(s@)),
    {
        let lower = to_lowercase(s);
        Environment::from_lowercase(lower.as_str())
    }
}

impl TryFrom<String> for Environment {
    type Error = String;

    fn try_from(environment: String) -> Result<Self, Self::Error> {
        Environment::parse(environment.as_str())
    }
}

impl vstd::std_specs::convert::TryFromSpecImpl<String> for Environment {
    open spec fn obeys_try_from_spec() -> bool {
        false
    }

    open spec fn try_from_spec(v: String) -> Result<Self, Self::Error> {
        arbitrary()
    }
}

/// Where the application listens.
#[derive(Debug)]
pub struct ApplicationSettings {
    pub port: u16,
    pub host: String,
}

/// How the database connection negotiates TLS.
#[derive(Clone, Copy, Debug, PartialEq, Eq, Structural)]
pub enum SslMode {
    /// Try TLS, fall back to a plain connection.
    Prefer,
    /// Refuse to connect without TLS.
    Require,
}

/// What a connection to the database is opened with.
#[derive(Debug)]
pub struct ConnectionOptions {
    pub host: String,
    pub port: u16,
    pub username: String,
    pub password: String,
    pub ssl_mode: SslMode,
    /// The database to open; the server's default where absent.
    pub database: Option<String>,
}

/// The database server and the credentials for it.
#[derive(Debug)]
pub struct DatabaseSettings {
    pub username: String,
    pub password: String,
    pub host: String,
    pub port: u16,
    pub database_name: String,
    pub require_ssl: bool,
}

impl DatabaseSettings {
    /// Options that reach the server but name no database.
    pub fn get_connection_options_without_db(&self) -> (r: ConnectionOptions)
        ensures
            r.host@ == self.host@,
            r.port == self.port,
            r.username@ == self.username@,
            r.password@ == self.password@,
            r.ssl_mode == (if self.require_ssl {
                SslMode::Require
            } else {
                SslMode::Prefer
            }),
            r.database is None,
    {
        let ssl_mode = if self.require_ssl {
            SslMode::Require
        } else {
            SslMode::Prefer
        };
        ConnectionOptions {
            host: self.host.clone(),
            port: self.port,
            username: self.username.clone(),
            password: self.password.clone(),
            ssl_mode,
            database: None,
        }
    }

    /// Options that open the configured database.
    pub fn get_connection_options_with_db(&self) -> (r: ConnectionOptions)
        ensures
            r.host@ == self.host@,
            r.port == self.port,
            r.username@ == self.username@,
            r.password@ == self.password@,
            r.ssl_mode == (if self.require_ssl {
                SslMode::Require
            } else {
                SslMode::Prefer
            }),
            r.database matches Some(d) && d@ == self.database_name@,
    {
        let mut options = self.get_connection_options_without_db();
        options.database = Some(self.database_name.clone());
        options
    }
}

/// The whole configuration.
#[derive(Debug)]
pub struct Settings {
    pub database_settings: DatabaseSettings,
    pub application_settings: ApplicationSettings,
}

} // verus!
