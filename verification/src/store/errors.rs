//! Errors of the store layer.
use vstd::prelude::*;

verus! {

/// Errors of store operations.
#[derive(Debug)]
pub enum StoreError {
    /// The table is not in the database.
    TableNotFound { table_name: String },
    /// The table exists but has no geometry column.
    NoGeometryColumn { table_name: String },
    /// A query failed; `message` is what the database reported.
    DatabaseError { message: String },
}

/// The text that describes an error.
pub open spec fn store_error_text(e: StoreError) -> Seq<char> {
    match e {
        StoreError::TableNotFound { table_name } => "Table '"@ + table_name@
            + "' not found in database"@,
        StoreError::NoGeometryColumn { table_name } => "Table '"@ + table_name@
            + "' exists but has no geometry column"@,
        StoreError::DatabaseError { message } => "Database error: "@ + message@,
    }
}

impl StoreError {
    /// Describes the error, e.g. `Table 'roads' not found in database`.
    pub fn to_string(&self) -> (r: String)
        ensures
            r@ == store_error_text(*self),
    {
        match self {
            StoreError::TableNotFound { table_name } => {
                let mut r = String::from_str("Table '");
                r.append(table_name.as_str());
                r.append("' not found in database");
                r
            },
            StoreError::NoGeometryColumn { table_name } => {
                let mut r = String::from_str("Table '");
                r.append(table_name.as_str());
                r.append("' exists but has no geometry column");
                r
            },
            StoreError::DatabaseError { message } => {
                let mut r = String::from_str("Database error: ");
                r.append(message.as_str());
                r
            },
        }
    }
}

} // verus!
