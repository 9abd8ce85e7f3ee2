//! The settings of the service, and what is derived from them.

use vstd::prelude::*;
use vstd::string::*;

verus! {

/// The variable that names the environment the service runs in.
pub const ENVIRONMENT_VARIABLE: &'static str = "APP_ENVIRONMENT";

/// The file that holds the settings of a local run.
pub const SETTINGS_FILE: &'static str = "settings.toml";

/// The environment that is taken where the variable is not set.
pub const DEFAULT_ENVIRONMENT: &'static str = "local";

/// How many connections fewer than the most the pool keeps open at least.
pub const SPARE_CONNECTIONS: u32 = 5;

/// Where the service runs.
#[derive(Debug, Clone, Copy, PartialEq, Eq)]
pub enum Environment {
    Local,
    Production,
}

/// A text in lower case, as `str::to_lowercase` gives it.
pub uninterp spec fn lowercase(text: Seq<char>) -> Seq<char>;

/// Has std turn `text` to lower case.
#[verifier::external_body]
fn lowered(text: &str) -> (lower: String)
    ensures
        lower@ == lowercase(text@),
{
    text.to_lowercase()
}

impl Environment {
    /// The environment that a name in lower case stands for: production for
    /// `production`, and the local one for every other name.
    pub open spec fn named(name: Seq<char>) -> Environment {
        if name == "production"@ {
            Environment::Production
        } else {
            Environment::Local
        }
    }

    /// The environment that a name in lower case stands for.
    pub fn from_lowercase(name: &str) -> (environment: Environment)
        ensures
            environment == Self::named(name@),
    {
        if crate::text::same_text(name, "production") {
            Environment::Production
        } else {
            Environment::Local
        }
    }

    /// The environment that the value of the variable stands for; an unset
    /// variable counts as the default name.
    pub fn from_variable(value: Option<String>) -> (environment: Environment)
        ensures
            environment == Self::named(
                lowercase(
                    match value {
                        Some(name) => name@,
                        None => DEFAULT_ENVIRONMENT@,
                    },
                ),
            ),
    {
        match value {
            Some(name) => Environment::from(name),
            None => Environment::from(String::from_str(DEFAULT_ENVIRONMENT)),
        }
    }

    /// Whether the settings file is read besides the process environment:
    /// only a local run reads it.
    pub fn reads_settings_file(&self) -> (reads: bool)
        ensures
            reads == (*self == Environment::Local),
    {
        match self {
            Environment::Local => true,
            Environment::Production => false,
        }
    }
}

impl From<String> for Environment {
    fn from(value: String) -> (environment: Environment) {
        let lower = lowered(value.as_str());
        Environment::from_lowercase(lower.as_str())
    }
}

impl vstd::std_specs::convert::FromSpecImpl<String> for Environment {
    open spec fn obeys_from_spec() -> bool {
        true
    }

    open spec fn from_spec(value: String) -> Environment {
        Environment::named(lowercase(value@))
    }
}

/// How the database is reached.
#[derive(Debug, Clone, PartialEq, Eq)]
pub struct Database {
    pub user: String,
    pub password: String,
    pub host: String,
    pub port: String,
    pub database: String,
    pub maxconnections: u32,
}

impl Database {
    /// The address of the server and the account on it, without a database.
    pub open spec fn server_address(self) -> Seq<char> {
        "postgresql://"@ + self.user@ + ":"@ + self.password@ + "@"@ + self.host@ + ":"@
            + self.port@
    }

    /// The address of the database.
    pub open spec fn address(self) -> Seq<char> {
        self.server_address() + "/"@ + self.database@
    }

    /// The address of the database.
    pub fn get_connection_string(&self) -> (address: String)
        ensures
            address@ == self.address(),
    {
        let mut address = self.get_connection_string_without_database();
        address.append("/");
        address.append(self.database.as_str());
        address
    }

    /// The address of the server and the account on it, without a database.
    pub fn get_connection_string_without_database(&self) -> (address: String)
        ensures
            address@ == self.server_address(),
    {
        let mut address = String::from_str("postgresql://");
        address.append(self.user.as_str());
        address.append(":");
        address.append(self.password.as_str());
        address.append("@");
        address.append(self.host.as_str());
        address.append(":");
        address.append(self.port.as_str());
        address
    }

    /// The least number of connections the pool keeps open:
    /// `SPARE_CONNECTIONS` fewer than the most, and none where the most is
    /// not that many.
    pub fn min_connections(&self) -> (least: Option<u32>)
        ensures
            self.maxconnections >= SPARE_CONNECTIONS ==> least == Some(
                (self.maxconnections - SPARE_CONNECTIONS) as u32,
            ),
            self.maxconnections < SPARE_CONNECTIONS ==> least is None,
    {
        if self.maxconnections >= SPARE_CONNECTIONS {
            Some(self.maxconnections - SPARE_CONNECTIONS)
        } else {
            None
        }
    }
}

/// The key of the tracing service.
#[derive(Debug, Clone, PartialEq, Eq)]
pub struct Honeycomb {
    pub apikey: String,
}

} // verus!
