//! What an operator configures: how to reach the host, and which database
//! goes where. Each value is checked once, when it is made, and handed to the
//! rest of the library by reference.

use vstd::prelude::*;
use vstd::string::*;

use crate::text::text_of;

verus! {

/// Name of the remote database where none is configured.
pub const DEFAULT_DATABASE_NAME: &'static str = "database.db";

/// What is appended to the host to address its secure-shell service.
pub const SSH_PORT_SUFFIX: &'static str = ":22";

/// A required setting that is absent.
#[derive(Clone, Copy, Debug, PartialEq, Eq, Structural)]
pub enum ConfigError {
    MissingHost,
    MissingUser,
    /// Neither a password nor a key file is configured.
    MissingCredential,
    MissingLocalDatabase,
    MissingRemoteDirectory,
}

/// How the user proves who they are.
#[derive(Clone, Debug, PartialEq, Eq)]
pub enum Auth {
    Password(String),
    KeyFile { path: String, passphrase: Option<String> },
}

/// The model of an [`Auth`].
pub enum AuthView {
    Password(Seq<char>),
    KeyFile { path: Seq<char>, passphrase: Option<Seq<char>> },
}

impl View for Auth {
    type V = AuthView;

    open spec fn view(&self) -> AuthView {
        match *self {
            Auth::Password(secret) => AuthView::Password(secret@),
            Auth::KeyFile { path, passphrase } => AuthView::KeyFile {
                path: path@,
                passphrase: text_of(passphrase),
            },
        }
    }
}

/// Host, user and the one way of authenticating that was chosen.
#[derive(Clone, Debug, PartialEq, Eq)]
pub struct Credentials {
    pub host: String,
    pub user: String,
    pub auth: Auth,
}

/// The model of [`Credentials`].
pub struct CredentialsView {
    pub host: Seq<char>,
    pub user: Seq<char>,
    pub auth: AuthView,
}

impl View for Credentials {
    type V = CredentialsView;

    open spec fn view(&self) -> CredentialsView {
        CredentialsView { host: self.host@, user: self.user@, auth: self.auth@ }
    }
}

/// The way of authenticating that the settings select: the password where
/// one is set, else the key file with its passphrase.
pub open spec fn chosen_auth(
    password: Option<Seq<char>>,
    key_path: Option<Seq<char>>,
    key_passphrase: Option<Seq<char>>,
) -> Option<AuthView> {
    match password {
        Some(secret) => Some(AuthView::Password(secret)),
        None => match key_path {
            Some(path) => Some(AuthView::KeyFile { path, passphrase: key_passphrase }),
            None => None,
        },
    }
}

/// The credentials that the settings amount to, or the first of host, user
/// and credential that is missing.
pub open spec fn credentials_of(
    host: Option<Seq<char>>,
    user: Option<Seq<char>>,
    password: Option<Seq<char>>,
    key_path: Option<Seq<char>>,
    key_passphrase: Option<Seq<char>>,
) -> Result<CredentialsView, ConfigError> {
    if host is None {
        Err(ConfigError::MissingHost)
    } else if user is None {
        Err(ConfigError::MissingUser)
    } else {
        match chosen_auth(password, key_path, key_passphrase) {
            Some(auth) => Ok(CredentialsView { host: host->0, user: user->0, auth }),
            None => Err(ConfigError::MissingCredential),
        }
    }
}

/// The model of a result that holds credentials.
pub open spec fn credentials_view(made: Result<Credentials, ConfigError>) -> Result<
    CredentialsView,
    ConfigError,
> {
    match made {
        Ok(c) => Ok(c@),
        Err(e) => Err(e),
    }
}

impl Credentials {
    /// Checks the settings that say how to reach the host. A password takes
    /// precedence over a key file; with neither there are no credentials.
    pub fn from_settings(
        host: Option<String>,
        user: Option<String>,
        password: Option<String>,
        key_path: Option<String>,
        key_passphrase: Option<String>,
    ) -> (made: Result<Credentials, ConfigError>)
        ensures
            credentials_view(made) == credentials_of(
                text_of(host),
                text_of(user),
                text_of(password),
                text_of(key_path),
                text_of(key_passphrase),
            ),
    {
        let host = match host {
            Some(h) => h,
            None => {
                return Err(ConfigError::MissingHost);
            },
        };
        let user = match user {
            Some(u) => u,
            None => {
                return Err(ConfigError::MissingUser);
            },
        };
        let auth = match password {
            Some(secret) => Auth::Password(secret),
            None => match key_path {
                Some(path) => Auth::KeyFile { path, passphrase: key_passphrase },
                None => {
                    return Err(ConfigError::MissingCredential);
                },
            },
        };
        Ok(Credentials { host, user, auth })
    }

    /// The address of the host's secure-shell service: the host, a colon and
    /// the standard port.
    pub fn address(&self) -> (addr: String)
        ensures
            addr@ == self.host@ + SSH_PORT_SUFFIX@,
    {
        let mut addr = self.host.clone();
        addr.append(SSH_PORT_SUFFIX);
        addr
    }
}

/// Which database is deployed, and where to.
#[derive(Clone, Debug, PartialEq, Eq)]
pub struct DeployConfig {
    /// Path of the local database that is dumped.
    pub local_database: String,
    /// Directory on the host that holds the live database.
    pub remote_dir: String,
    /// File name of the live database in that directory.
    pub database_name: String,
}

/// The model of a [`DeployConfig`].
pub struct DeployConfigView {
    pub local_database: Seq<char>,
    pub remote_dir: Seq<char>,
    pub database_name: Seq<char>,
}

impl View for DeployConfig {
    type V = DeployConfigView;

    open spec fn view(&self) -> DeployConfigView {
        DeployConfigView {
            local_database: self.local_database@,
            remote_dir: self.remote_dir@,
            database_name: self.database_name@,
        }
    }
}

/// The deploy settings that the values amount to, or the first required one
/// that is missing. A missing database name stands for the default name.
pub open spec fn deploy_config_of(
    local_database: Option<Seq<char>>,
    remote_dir: Option<Seq<char>>,
    database_name: Option<Seq<char>>,
) -> Result<DeployConfigView, ConfigError> {
    if local_database is None {
        Err(ConfigError::MissingLocalDatabase)
    } else if remote_dir is None {
        Err(ConfigError::MissingRemoteDirectory)
    } else {
        Ok(
            DeployConfigView {
                local_database: local_database->0,
                remote_dir: remote_dir->0,
                database_name: match database_name {
                    Some(name) => name,
                    None => DEFAULT_DATABASE_NAME@,
                },
            },
        )
    }
}

/// The model of a result that holds deploy settings.
pub open spec fn deploy_config_view(made: Result<DeployConfig, ConfigError>) -> Result<
    DeployConfigView,
    ConfigError,
> {
    match made {
        Ok(c) => Ok(c@),
        Err(e) => Err(e),
    }
}

impl DeployConfig {
    /// Checks the settings of a deploy.
    pub fn from_settings(
        local_database: Option<String>,
        remote_dir: Option<String>,
        database_name: Option<String>,
    ) -> (made: Result<DeployConfig, ConfigError>)
        ensures
            deploy_config_view(made) == deploy_config_of(
                text_of(local_database),
                text_of(remote_dir),
                text_of(database_name),
            ),
    {
        let local_database = match local_database {
            Some(path) => path,
            None => {
                return Err(ConfigError::MissingLocalDatabase);
            },
        };
        let remote_dir = match remote_dir {
            Some(dir) => dir,
            None => {
                return Err(ConfigError::MissingRemoteDirectory);
            },
        };
        let database_name = match database_name {
            Some(name) => name,
            None => String::from_str(DEFAULT_DATABASE_NAME),
        };
        Ok(DeployConfig { local_database, remote_dir, database_name })
    }
}

} // verus!
