//! Error taxonomy of the write path.
//!
//! Statement preparation failures are configuration-class and fatal; they
//! must surface before any traffic is accepted. Execution failures are
//! surfaced per call to the caller, never downgraded and never retried
//! here — retry policy belongs to the caller. A classifier mismatch is not
//! an error at all and never reaches this type.

use vstd::prelude::*;
use vstd::string::StringExecFns;

verus! {

/// An error of the index write path, carrying a descriptive message.
pub enum IndexError {
    /// Statement preparation failed: bad SQL, or a missing table or column.
    DataSchemaError { msg: String },
    /// A query execution failed at runtime.
    AccountsUpdateError { msg: String },
}

/// Message of a preparation failure for the given table.
pub open spec fn spec_schema_error_msg(table: Seq<char>, detail: Seq<char>) -> Seq<char> {
    "Error in preparing for the "@ + table + " index update PostgreSQL database: "@ + detail
}

/// Message of a failed bulk submission.
pub open spec fn spec_bulk_update_error_msg(detail: Seq<char>) -> Seq<char> {
    "Failed to persist the update of account to the PostgreSQL database. Error: "@ + detail
}

/// Message of a failed single-row owner index update.
pub open spec fn spec_owner_update_error_msg(detail: Seq<char>) -> Seq<char> {
    "Failed to update the token owner index to the PostgreSQL database. Error: "@ + detail
}

/// Message of a failed single-row mint index update.
pub open spec fn spec_mint_update_error_msg(detail: Seq<char>) -> Seq<char> {
    "Failed to update the token mint index to the PostgreSQL database. Error: "@ + detail
}

impl IndexError {
    /// The message carried, whatever the class.
    pub open spec fn spec_message(&self) -> Seq<char> {
        match self {
            IndexError::DataSchemaError { msg } => msg@,
            IndexError::AccountsUpdateError { msg } => msg@,
        }
    }

    pub fn message(&self) -> (m: &String)
        ensures
            m@ == self.spec_message(),
    {
        match self {
            IndexError::DataSchemaError { msg } => msg,
            IndexError::AccountsUpdateError { msg } => msg,
        }
    }

    /// The fatal, configuration-class error for a statement that could not
    /// be prepared against `table`.
    pub fn data_schema_error(table: &str, detail: &str) -> (e: Self)
        ensures
            e is DataSchemaError,
            e.spec_message() == spec_schema_error_msg(table@, detail@),
    {
        let mut msg = String::new();
        msg.append("Error in preparing for the ");
        msg.append(table);
        msg.append(" index update PostgreSQL database: ");
        msg.append(detail);
        proof {
            assert(msg@ =~= spec_schema_error_msg(table@, detail@));
        }
        IndexError::DataSchemaError { msg }
    }

    /// The per-call error reported when a bulk submission failed. The rows
    /// of the failed batch were already handed out of the buffer and are
    /// discarded, not retried.
    pub fn bulk_update_error(detail: &str) -> (e: Self)
        ensures
            e is AccountsUpdateError,
            e.spec_message() == spec_bulk_update_error_msg(detail@),
    {
        let mut msg = String::new();
        msg.append("Failed to persist the update of account to the PostgreSQL database. Error: ");
        msg.append(detail);
        proof {
            assert(msg@ =~= spec_bulk_update_error_msg(detail@));
        }
        IndexError::AccountsUpdateError { msg }
    }

    /// The per-call error reported when a single-row owner index update
    /// failed.
    pub fn owner_update_error(detail: &str) -> (e: Self)
        ensures
            e is AccountsUpdateError,
            e.spec_message() == spec_owner_update_error_msg(detail@),
    {
        let mut msg = String::new();
        msg.append("Failed to update the token owner index to the PostgreSQL database. Error: ");
        msg.append(detail);
        proof {
            assert(msg@ =~= spec_owner_update_error_msg(detail@));
        }
        IndexError::AccountsUpdateError { msg }
    }

    /// The per-call error reported when a single-row mint index update
    /// failed.
    pub fn mint_update_error(detail: &str) -> (e: Self)
        ensures
            e is AccountsUpdateError,
            e.spec_message() == spec_mint_update_error_msg(detail@),
    {
        let mut msg = String::new();
        msg.append("Failed to update the token mint index to the PostgreSQL database. Error: ");
        msg.append(detail);
        proof {
            assert(msg@ =~= spec_mint_update_error_msg(detail@));
        }
        IndexError::AccountsUpdateError { msg }
    }
}

} // verus!
