//! Errors of the database layer and their messages.
use vstd::prelude::*;
use vstd::std_specs::convert::FromSpecImpl;

verus! {

/// Migration error type.
#[derive(Debug)]
pub enum MigrationError {
    Failed(String),
    DatabaseError(String),
}

/// Database-specific errors.
#[derive(Debug)]
pub enum DatabaseError {
    ConnectionError(String),
    QueryError(String),
    TransactionError(String),
    MigrationError(MigrationError),
    IoError(String),
    SerializationError(String),
    NotFound(String),
    ConstraintError(String),
}

/// `prefix` followed by `text`.
fn prefixed(prefix: &str, text: &str) -> (s: String)
    ensures
        s@ == prefix@ + text@,
{
    let mut s = String::from_str(prefix);
    s.append(text);
    s
}

impl MigrationError {
    /// The message of the error.
    pub open spec fn message_spec(&self) -> Seq<char> {
        match self {
            MigrationError::Failed(m) => "Migration failed: "@ + m@,
            MigrationError::DatabaseError(m) => "Database error: "@ + m@,
        }
    }

    /// The message of the error.
    pub fn message(&self) -> (s: String)
        ensures
            s@ == self.message_spec(),
    {
        match self {
            MigrationError::Failed(m) => prefixed("Migration failed: ", m.as_str()),
            MigrationError::DatabaseError(m) => prefixed("Database error: ", m.as_str()),
        }
    }
}

impl DatabaseError {
    /// The message of the error.
    pub open spec fn message_spec(&self) -> Seq<char> {
        match self {
            DatabaseError::ConnectionError(m) => "Failed to connect to database: "@ + m@,
            DatabaseError::QueryError(m) => "Database query error: "@ + m@,
            DatabaseError::TransactionError(m) => "Database transaction error: "@ + m@,
            DatabaseError::MigrationError(e) => "Migration error: "@ + e.message_spec(),
            DatabaseError::IoError(m) => "I/O error: "@ + m@,
            DatabaseError::SerializationError(m) => "Serialization error: "@ + m@,
            DatabaseError::NotFound(m) => "Not found: "@ + m@,
            DatabaseError::ConstraintError(m) => "Constraint violation: "@ + m@,
        }
    }

    /// The message of the error.
    pub fn message(&self) -> (s: String)
        ensures
            s@ == self.message_spec(),
    {
        match self {
            DatabaseError::ConnectionError(m) => prefixed(
                "Failed to connect to database: ",
                m.as_str(),
            ),
            DatabaseError::QueryError(m) => prefixed("Database query error: ", m.as_str()),
            DatabaseError::TransactionError(m) => prefixed(
                "Database transaction error: ",
                m.as_str(),
            ),
            DatabaseError::MigrationError(e) => {
                let inner = e.message();
                prefixed("Migration error: ", inner.as_str())
            },
            DatabaseError::IoError(m) => prefixed("I/O error: ", m.as_str()),
            DatabaseError::SerializationError(m) => prefixed("Serialization error: ", m.as_str()),
            DatabaseError::NotFound(m) => prefixed("Not found: ", m.as_str()),
            DatabaseError::ConstraintError(m) => prefixed("Constraint violation: ", m.as_str()),
        }
    }

    /// The error for a failure that the SQLite driver reports: a query that
    /// returned no rows is `NotFound("No rows returned")`, any other failure
    /// is a query error with the driver's message.
    pub fn from_driver(no_rows: bool, driver_message: String) -> (e: DatabaseError)
        ensures
            no_rows ==> (e matches DatabaseError::NotFound(m) && m@ == "No rows returned"@),
            !no_rows ==> e == DatabaseError::QueryError(driver_message),
    {
        if no_rows {
            DatabaseError::NotFound(String::from_str("No rows returned"))
        } else {
            DatabaseError::QueryError(driver_message)
        }
    }

    /// `NotFound("{kind} {subject} not found")`.
    pub fn not_found(kind: &str, subject: &str) -> (e: DatabaseError)
        ensures
            e matches DatabaseError::NotFound(m) && m@ == not_found_text(kind@, subject@),
    {
        let mut m = String::from_str(kind);
        m.append(" ");
        m.append(subject);
        m.append(" not found");
        DatabaseError::NotFound(m)
    }
}

/// The text of a not-found error: `{kind} {subject} not found`.
pub open spec fn not_found_text(kind: Seq<char>, subject: Seq<char>) -> Seq<char> {
    kind + " "@ + subject + " not found"@
}

impl From<MigrationError> for DatabaseError {
    fn from(e: MigrationError) -> (r: DatabaseError) {
        DatabaseError::MigrationError(e)
    }
}

impl FromSpecImpl<MigrationError> for DatabaseError {
    open spec fn obeys_from_spec() -> bool {
        true
    }

    open spec fn from_spec(e: MigrationError) -> DatabaseError {
        DatabaseError::MigrationError(e)
    }
}

} // verus!
