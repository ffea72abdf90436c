//! The database connector's decisions: whether a configuration can be used,
//! and how the connection it describes is to be made.
//!
//! Nothing here opens a socket. The connector turns a configuration into a
//! plan of plain values; whoever drives the network carries the plan out.

use vstd::prelude::*;
use vstd::string::*;
use crate::error::{CheckError, ErrorKind};

verus! {

/// The port on which a server's browser service answers instance lookups.
pub const SQL_BROWSER_PORT: u16 = 1434;

/// What the configuration fault says when no server is named.
pub const FAULT_NO_SERVER: &'static str = "server_name is empty";

/// What the configuration fault says when no database is named.
pub const FAULT_NO_DATABASE: &'static str = "db_name is empty";

/// What the configuration fault says when neither an instance nor a port
/// is given.
pub const FAULT_NO_ENDPOINT: &'static str = "neither instance_name nor port is set";

/// What the configuration fault says when a user comes without a password.
pub const FAULT_NO_PASSWORD: &'static str = "password is empty for the given user";

/// Where the database is and how to log in to it.
#[derive(Debug)]
pub struct DatabaseConfig {
    /// The host that runs the server.
    pub server_name: String,
    /// The named instance to look up on that host; empty to go straight to
    /// `port`.
    pub instance_name: String,
    /// The server's port, used when no instance is named.
    pub port: u16,
    /// The database that holds the ledger.
    pub db_name: String,
    /// The login; empty to log in as whoever runs the process.
    pub user: String,
    /// The login's password.
    pub password: String,
    /// Whether to accept the server's certificate without validating it.
    pub trust_cert: bool,
}

/// How the client proves who it is.
#[derive(Debug, PartialEq, Eq)]
pub enum Authentication {
    /// As the identity under which the process runs.
    Integrated,
    /// With a login and its password.
    SqlServer { user: String, password: String },
}

/// An `Authentication` as plain values.
pub enum AuthenticationView {
    Integrated,
    SqlServer { user: Seq<char>, password: Seq<char> },
}

impl View for Authentication {
    type V = AuthenticationView;

    open spec fn view(&self) -> AuthenticationView {
        match self {
            Authentication::Integrated => AuthenticationView::Integrated,
            Authentication::SqlServer { user, password } => AuthenticationView::SqlServer {
                user: user@,
                password: password@,
            },
        }
    }
}

/// Everything that decides how a connection is made, spelled out: no
/// setting of a connection is left to a default.
#[derive(Debug, PartialEq, Eq)]
pub struct ConnectionPlan {
    /// The host to reach.
    pub host: String,
    /// The instance to resolve through the host's browser service before
    /// the data connection is opened, if any.
    pub instance_name: Option<String>,
    /// The browser service's port where an instance is to be resolved, the
    /// server's port otherwise.
    pub port: u16,
    /// How to log in.
    pub authentication: Authentication,
    /// Whether the server's certificate is accepted without validation.
    pub trust_cert: bool,
}

/// A `ConnectionPlan` as plain values.
pub struct ConnectionPlanView {
    pub host: Seq<char>,
    pub instance_name: Option<Seq<char>>,
    pub port: u16,
    pub authentication: AuthenticationView,
    pub trust_cert: bool,
}

impl View for ConnectionPlan {
    type V = ConnectionPlanView;

    open spec fn view(&self) -> ConnectionPlanView {
        ConnectionPlanView {
            host: self.host@,
            instance_name: match self.instance_name {
                Some(name) => Some(name@),
                None => None,
            },
            port: self.port,
            authentication: self.authentication@,
            trust_cert: self.trust_cert,
        }
    }
}

impl DatabaseConfig {
    /// Why the configuration cannot be used, if it cannot: a field that the
    /// connection would rely on is empty.
    pub open spec fn fault(&self) -> Option<Seq<char>> {
        if self.server_name@.len() == 0 {
            Some(FAULT_NO_SERVER@)
        } else if self.db_name@.len() == 0 {
            Some(FAULT_NO_DATABASE@)
        } else if self.instance_name@.len() == 0 && self.port == 0 {
            Some(FAULT_NO_ENDPOINT@)
        } else if self.user@.len() > 0 && self.password@.len() == 0 {
            Some(FAULT_NO_PASSWORD@)
        } else {
            None
        }
    }

    /// The connection that the configuration describes. A named instance
    /// is resolved through the browser service; without one the server's
    /// own port is used. A login is used where one is given; without one
    /// the process's own identity is.
    pub open spec fn plan(&self) -> ConnectionPlanView {
        ConnectionPlanView {
            host: self.server_name@,
            instance_name: if self.instance_name@.len() > 0 {
                Some(self.instance_name@)
            } else {
                None
            },
            port: if self.instance_name@.len() > 0 {
                SQL_BROWSER_PORT
            } else {
                self.port
            },
            authentication: if self.user@.len() > 0 {
                AuthenticationView::SqlServer { user: self.user@, password: self.password@ }
            } else {
                AuthenticationView::Integrated
            },
            trust_cert: self.trust_cert,
        }
    }
}

/// Plans the connection that a configuration describes, or says why the
/// configuration cannot be used.
pub fn connection_plan(config: &DatabaseConfig) -> (outcome: Result<ConnectionPlan, CheckError>)
    ensures
        config.fault() is None ==> (outcome matches Ok(plan) && plan@ == config.plan()),
        config.fault() matches Some(detail) ==> (outcome matches Err(error) && error.kind
            == ErrorKind::Configuration && error.detail@ == detail),
{
    let named = !config.instance_name.as_str().is_empty();
    let login = !config.user.as_str().is_empty();
    if config.server_name.as_str().is_empty() {
        return Err(CheckError::new(ErrorKind::Configuration, String::from_str(FAULT_NO_SERVER)));
    }
    if config.db_name.as_str().is_empty() {
        return Err(
            CheckError::new(ErrorKind::Configuration, String::from_str(FAULT_NO_DATABASE)),
        );
    }
    if !named && config.port == 0 {
        return Err(
            CheckError::new(ErrorKind::Configuration, String::from_str(FAULT_NO_ENDPOINT)),
        );
    }
    if login && config.password.as_str().is_empty() {
        return Err(
            CheckError::new(ErrorKind::Configuration, String::from_str(FAULT_NO_PASSWORD)),
        );
    }
    Ok(
        ConnectionPlan {
            host: config.server_name.clone(),
            instance_name: if named {
                Some(config.instance_name.clone())
            } else {
                None
            },
            port: if named {
                SQL_BROWSER_PORT
            } else {
                config.port
            },
            authentication: if login {
                Authentication::SqlServer {
                    user: config.user.clone(),
                    password: config.password.clone(),
                }
            } else {
                Authentication::Integrated
            },
            trust_cert: config.trust_cert,
        },
    )
}

/// The statement that selects a database by name.
pub open spec fn use_statement(db_name: Seq<char>) -> Seq<char> {
    "USE "@ + db_name
}

/// Writes the statement that selects the database of the given name.
pub fn select_database_statement(db_name: &str) -> (statement: String)
    ensures
        statement@ == use_statement(db_name@),
{
    String::from_str("USE ").concat(db_name)
}

} // verus!
