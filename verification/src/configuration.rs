//! The settings of the service and the environment that selects them.

use crate::secret::secret_text;
use crate::secret::Secret;
use crate::text::decimal;
use crate::text::to_decimal;
use vstd::prelude::*;
use vstd::string::StringExecFns;

verus! {

/// All settings of the service.
#[derive(Debug)]
pub struct Settings {
    pub database: DatabaseSettings,
    pub application: ApplicationSettings,
}

/// How to reach the database.
#[derive(Debug)]
pub struct DatabaseSettings {
    pub username: String,
    pub password: Secret,
    pub host: String,
    pub port: u16,
    pub database_name: String,
}

/// Where the service listens.
#[derive(Debug)]
pub struct ApplicationSettings {
    pub port: u16,
    pub host: String,
}

impl DatabaseSettings {
    /// The URL of the database server, without a database name.
    pub open spec fn server_url(self) -> Seq<char> {
        "postgres://"@ + self.username@ + ":"@ + secret_text(self.password) + "@"@ + self.host@
            + ":"@ + decimal(self.port as nat)
    }

    /// The URL of the database.
    pub open spec fn database_url(self) -> Seq<char> {
        self.server_url() + "/"@ + self.database_name@
    }

    /// The connection string for the configured database. It holds the
    /// password, so it is a secret itself.
    pub fn connection_string(&self) -> (url: Secret)
        ensures
            secret_text(url) == self.database_url(),
    {
        let mut url = self.server();
        url.append("/");
        url.append(self.database_name.as_str());
        Secret::new(url)
    }

    /// The connection string for the database server, naming no database.
    pub fn connection_string_without_db(&self) -> (url: Secret)
        ensures
            secret_text(url) == self.server_url(),
    {
        Secret::new(self.server())
    }

    fn server(&self) -> (url: String)
        ensures
            url@ == self.server_url(),
    {
        let mut url = String::from_str("postgres://");
        url.append(self.username.as_str());
        url.append(":");
        url.append(self.password.expose());
        url.append("@");
        url.append(self.host.as_str());
        url.append(":");
        url.append(to_decimal(self.port).as_str());
        url
    }
}

/// The runtime environment the service was started for.
#[derive(Clone, Copy, Debug, PartialEq, Eq, Structural)]
pub enum Environment {
    Local,
    Production,
}

/// The text of `text` with every character in lower case.
pub uninterp spec fn lowercase(text: Seq<char>) -> Seq<char>;

/// `str::to_lowercase` returns the lower-case equivalent of the text, which
/// depends on the text alone.
#[verifier::external_body]
fn to_lowercase(text: &str) -> (lowered: String)
    ensures
        lowered@ == lowercase(text@),
{
    text.to_lowercase()
}

/// The text that refuses `name` as the name of an environment.
pub open spec fn unknown_environment_message(name: Seq<char>) -> Seq<char> {
    name + " is not a valid environment. Use either local or production."@
}

impl Environment {
    /// The name of the environment as it appears in file names.
    pub open spec fn name(self) -> Seq<char> {
        match self {
            Environment::Local => "local"@,
            Environment::Production => "production"@,
        }
    }

    /// Returns the lower-case name of the environment.
    pub fn as_str(&self) -> (name: &'static str)
        ensures
            name@ == self.name(),
    {
        match self {
            Environment::Local => "local",
            Environment::Production => "production",
        }
    }

    /// The environment that `name` is the lower-case name of, or the
    /// message that refuses it.
    pub open spec fn named(name: Seq<char>) -> Result<Environment, Seq<char>> {
        if name == Environment::Local.name() {
            Ok(Environment::Local)
        } else if name == Environment::Production.name() {
            Ok(Environment::Production)
        } else {
            Err(unknown_environment_message(name))
        }
    }

    /// Reads the lower-case name of an environment. Any other text is
    /// refused with a message that quotes it.
    pub fn from_name(name: String) -> (parsed: Result<Environment, String>)
        ensures
            match Environment::named(name@) {
                Ok(environment) => parsed matches Ok(found) && found == environment,
                Err(refusal) => parsed matches Err(message) && message@ == refusal,
            },
    {
        if name == String::from_str("local") {
            Ok(Environment::Local)
        } else if name == String::from_str("production") {
            Ok(Environment::Production)
        } else {
            let mut message = name;
            message.append(" is not a valid environment. Use either local or production.");
            Err(message)
        }
    }

    /// Reads the name of an environment, in any mix of upper and lower
    /// case. Any other text is refused with a message that quotes it in
    /// lower case.
    pub fn try_from(value: String) -> (parsed: Result<Environment, String>)
        ensures
            match Environment::named(lowercase(value@)) {
                Ok(environment) => parsed matches Ok(found) && found == environment,
                Err(refusal) => parsed matches Err(message) && message@ == refusal,
            },
    {
        Environment::from_name(to_lowercase(value.as_str()))
    }
}

} // verus!
