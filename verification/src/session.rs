//! One run of the check, step by step.
//!
//! A run goes through four stages in a fixed order: connect, select the
//! database, read the ledger, scan the directory. Each stage is a type. It
//! says what is to be done outside (a connection to open, a statement to
//! execute, a query to run, a directory to list) and takes what came of
//! that work: success leads to the next stage, failure ends the run with
//! an error. Either way the stage is used up, so no step runs twice and
//! none runs after a failure; a report exists only at the end of the last
//! stage.

use vstd::prelude::*;
use vstd::string::*;
use crate::connector::{
    connection_plan,
    select_database_statement,
    use_statement,
    ConnectionPlan,
    ConnectionPlanView,
    DatabaseConfig,
};
use crate::error::{CheckError, ErrorKind};
use crate::identifier::names_of;
use crate::ledger::{
    all_present,
    cells_of,
    read_ledger,
    recorded_in,
    AppliedMigrationSet,
    LEDGER_QUERY,
    MISSING_IDENTIFIER,
};
use crate::reconcile::{missing_from, reconcile, MissingMigrationsReport};
use crate::scanner::{declared_in, get_migration_files, DirectoryEntry};

verus! {

/// Why no connection came about.
#[derive(Debug)]
pub enum ConnectFailure {
    /// The named instance could not be looked up.
    Discovery(String),
    /// The transport could not be opened, or the server refused the login.
    Connection(String),
}

/// The first stage: a connection is to be opened as planned.
#[derive(Debug)]
pub struct Connecting {
    plan: ConnectionPlan,
    db_name: String,
    directory: String,
}

/// What a run holds while it connects.
pub struct ConnectingView {
    pub plan: ConnectionPlanView,
    pub db_name: Seq<char>,
    pub directory: Seq<char>,
}

/// The second stage: the database is to be selected on the open connection.
#[derive(Debug)]
pub struct SelectingDatabase {
    db_name: String,
    directory: String,
}

/// What a run holds while it selects the database.
pub struct SelectingDatabaseView {
    pub db_name: Seq<char>,
    pub directory: Seq<char>,
}

/// The third stage: the ledger is to be read.
#[derive(Debug)]
pub struct ReadingLedger {
    directory: String,
}

/// What a run holds while it reads the ledger.
pub struct ReadingLedgerView {
    pub directory: Seq<char>,
}

/// The fourth stage: the migrations directory is to be listed.
#[derive(Debug)]
pub struct Scanning {
    directory: String,
    applied: AppliedMigrationSet,
}

/// What a run holds while it scans the directory.
pub struct ScanningView {
    pub directory: Seq<char>,
    pub applied: Set<Seq<char>>,
}

impl View for Connecting {
    type V = ConnectingView;

    closed spec fn view(&self) -> ConnectingView {
        ConnectingView { plan: self.plan@, db_name: self.db_name@, directory: self.directory@ }
    }
}

impl View for SelectingDatabase {
    type V = SelectingDatabaseView;

    closed spec fn view(&self) -> SelectingDatabaseView {
        SelectingDatabaseView { db_name: self.db_name@, directory: self.directory@ }
    }
}

impl View for ReadingLedger {
    type V = ReadingLedgerView;

    closed spec fn view(&self) -> ReadingLedgerView {
        ReadingLedgerView { directory: self.directory@ }
    }
}

impl View for Scanning {
    type V = ScanningView;

    closed spec fn view(&self) -> ScanningView {
        ScanningView { directory: self.directory@, applied: self.applied@ }
    }
}

/// Starts a run that looks in the directory at `path` for migrations that
/// the database of `app_config` has not applied. A configuration that
/// cannot be used ends the run before anything is attempted.
pub fn find_missing_migrations(path: String, app_config: DatabaseConfig) -> (start: Result<
    Connecting,
    CheckError,
>)
    ensures
        app_config.fault() is None ==> (start matches Ok(stage) && stage@ == (ConnectingView {
            plan: app_config.plan(),
            db_name: app_config.db_name@,
            directory: path@,
        })),
        app_config.fault() matches Some(detail) ==> (start matches Err(error) && error.kind
            == ErrorKind::Configuration && error.detail@ == detail),
{
    match connection_plan(&app_config) {
        Ok(plan) => Ok(Connecting { plan, db_name: app_config.db_name, directory: path }),
        Err(error) => Err(error),
    }
}

impl Connecting {
    /// The connection to open.
    pub fn plan(&self) -> (plan: &ConnectionPlan)
        ensures
            plan@ == self@.plan,
    {
        &self.plan
    }

    /// The connection is open and the login accepted.
    pub fn connected(self) -> (next: SelectingDatabase)
        ensures
            next@ == (SelectingDatabaseView {
                db_name: self@.db_name,
                directory: self@.directory,
            }),
    {
        SelectingDatabase { db_name: self.db_name, directory: self.directory }
    }

    /// No connection came about. The run ends with a discovery error where
    /// the instance lookup failed, with a connection error otherwise.
    pub fn failed(self, failure: ConnectFailure) -> (error: CheckError)
        ensures
            failure matches ConnectFailure::Discovery(detail) ==> error.kind
                == ErrorKind::Discovery && error.detail@ == detail@,
            failure matches ConnectFailure::Connection(detail) ==> error.kind
                == ErrorKind::Connection && error.detail@ == detail@,
    {
        match failure {
            ConnectFailure::Discovery(detail) => CheckError::new(ErrorKind::Discovery, detail),
            ConnectFailure::Connection(detail) => CheckError::new(ErrorKind::Connection, detail),
        }
    }
}

impl SelectingDatabase {
    /// The statement to execute.
    pub fn statement(&self) -> (statement: String)
        ensures
            statement@ == use_statement(self@.db_name),
    {
        select_database_statement(self.db_name.as_str())
    }

    /// The statement went through: the database is selected.
    pub fn selected(self) -> (next: ReadingLedger)
        ensures
            next@ == (ReadingLedgerView { directory: self@.directory }),
    {
        ReadingLedger { directory: self.directory }
    }

    /// The server refused the statement: the database does not exist or
    /// may not be used.
    pub fn failed(self, detail: String) -> (error: CheckError)
        ensures
            error.kind == ErrorKind::DatabaseSelection,
            error.detail@ == detail@,
    {
        CheckError::new(ErrorKind::DatabaseSelection, detail)
    }
}

impl ReadingLedger {
    /// The query to run.
    pub fn query(&self) -> (query: &'static str)
        ensures
            query@ == LEDGER_QUERY@,
    {
        LEDGER_QUERY
    }

    /// The query returned: `rows` holds the identifier column of each row.
    /// A row without an identifier ends the run with a query error.
    pub fn rows_read(self, rows: Vec<Option<String>>) -> (next: Result<Scanning, CheckError>)
        ensures
            all_present(cells_of(rows@)) ==> (next matches Ok(stage) && stage@ == (ScanningView {
                directory: self@.directory,
                applied: recorded_in(cells_of(rows@)),
            })),
            !all_present(cells_of(rows@)) ==> (next matches Err(error) && error.kind
                == ErrorKind::Query && error.detail@ == MISSING_IDENTIFIER@),
    {
        match read_ledger(&rows) {
            Ok(applied) => Ok(Scanning { directory: self.directory, applied }),
            Err(error) => Err(error),
        }
    }

    /// The query did not run to its end.
    pub fn failed(self, detail: String) -> (error: CheckError)
        ensures
            error.kind == ErrorKind::Query,
            error.detail@ == detail@,
    {
        CheckError::new(ErrorKind::Query, detail)
    }
}

impl Scanning {
    /// The directory to list.
    pub fn directory(&self) -> (path: &str)
        ensures
            path@ == self@.directory,
    {
        self.directory.as_str()
    }

    /// The directory is listed: `entries` holds its direct entries in the
    /// order in which they came. The run ends with the report.
    pub fn listed(self, entries: Vec<DirectoryEntry>) -> (report: MissingMigrationsReport)
        ensures
            names_of(report@) == missing_from(declared_in(entries@), self@.applied),
    {
        let declared = get_migration_files(&entries);
        reconcile(&declared, &self.applied)
    }

    /// The directory or one of its entries could not be read.
    pub fn failed(self, detail: String) -> (error: CheckError)
        ensures
            error.kind == ErrorKind::Filesystem,
            error.detail@ == detail@,
    {
        CheckError::new(ErrorKind::Filesystem, detail)
    }
}

} // verus!
