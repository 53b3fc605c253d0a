//! The error model of the bulk-copy adapter.
//!
//! Every failure the adapter can surface is a [`BulkError`].  The message a
//! caller observes is pinned down exactly by [`message_of`], and the failure
//! category the host boundary maps each error to by [`kind_of`].

use vstd::prelude::*;
use vstd::string::StringExecFns;

verus! {

/// The failure category an error is surfaced as at the host boundary.
#[derive(Clone, Copy, Debug, PartialEq, Eq, Structural)]
pub enum ErrorKind {
    /// The external connectivity module could not be located.
    Import,
    /// A required attribute, class or method was missing.
    Attribute,
    /// An external operation was attempted and failed.
    Runtime,
}

/// A failure surfaced by the bulk-copy adapter.
///
/// Construction failures keep the text of the underlying cause; a failed
/// bulk copy keeps both the table name and the cause, so that the rendered
/// message enriches rather than suppresses the original error.
#[derive(Clone, Debug, PartialEq, Eq)]
pub enum BulkError {
    /// The external connectivity module could not be imported.
    ModuleUnavailable { detail: String },
    /// The connection constructor could not be resolved on the module.
    ConstructorUnavailable { detail: String },
    /// The connection constructor ran and failed.
    ConnectionFailed { detail: String },
    /// The held connection does not expose a `bulk_copy` capability.
    MissingBulkCopy,
    /// The external `bulk_copy` call itself failed.
    CopyFailed { table: String, detail: String },
}

/// The exact message text of each error.
pub open spec fn message_of(e: BulkError) -> Seq<char> {
    match e {
        BulkError::ModuleUnavailable { detail } => "Failed to import mssql_core_tds: "@ + detail@,
        BulkError::ConstructorUnavailable { detail } => "Failed to get DdbcConnection class: "@
            + detail@,
        BulkError::ConnectionFailed { detail } => "Failed to create DdbcConnection: "@ + detail@,
        BulkError::MissingBulkCopy => "bulk_copy method not implemented in mssql_core_tds.DdbcConnection"@,
        BulkError::CopyFailed { table, detail } => "Bulk copy failed for table '"@ + table@
            + "': "@ + detail@,
    }
}

/// The failure category of each error.
pub open spec fn kind_of(e: BulkError) -> ErrorKind {
    match e {
        BulkError::ModuleUnavailable { .. } => ErrorKind::Import,
        BulkError::ConstructorUnavailable { .. } => ErrorKind::Attribute,
        BulkError::ConnectionFailed { .. } => ErrorKind::Runtime,
        BulkError::MissingBulkCopy => ErrorKind::Attribute,
        BulkError::CopyFailed { .. } => ErrorKind::Runtime,
    }
}

impl BulkError {
    /// Render the message a caller observes; exactly [`message_of`].
    pub fn message(&self) -> (r: String)
        ensures
            r@ == message_of(*self),
    {
        match self {
            BulkError::ModuleUnavailable { detail } => {
                let mut m = "Failed to import mssql_core_tds: ".to_owned();
                m.append(detail.as_str());
                m
            },
            BulkError::ConstructorUnavailable { detail } => {
                let mut m = "Failed to get DdbcConnection class: ".to_owned();
                m.append(detail.as_str());
                m
            },
            BulkError::ConnectionFailed { detail } => {
                let mut m = "Failed to create DdbcConnection: ".to_owned();
                m.append(detail.as_str());
                m
            },
            BulkError::MissingBulkCopy => {
                "bulk_copy method not implemented in mssql_core_tds.DdbcConnection".to_owned()
            },
            BulkError::CopyFailed { table, detail } => {
                let mut m = "Bulk copy failed for table '".to_owned();
                m.append(table.as_str());
                m.append("': ");
                m.append(detail.as_str());
                m
            },
        }
    }

    /// The failure category of this error; exactly [`kind_of`].
    pub fn kind(&self) -> (k: ErrorKind)
        ensures
            k == kind_of(*self),
    {
        match self {
            BulkError::ModuleUnavailable { .. } => ErrorKind::Import,
            BulkError::ConstructorUnavailable { .. } => ErrorKind::Attribute,
            BulkError::ConnectionFailed { .. } => ErrorKind::Runtime,
            BulkError::MissingBulkCopy => ErrorKind::Attribute,
            BulkError::CopyFailed { .. } => ErrorKind::Runtime,
        }
    }
}

/// Holds when `needle` occurs in `hay` as a contiguous run of characters.
pub open spec fn contains_seq(hay: Seq<char>, needle: Seq<char>) -> bool {
    exists|i: int|
        0 <= i && i + needle.len() <= hay.len() && #[trigger] hay.subrange(i, i + needle.len())
            == needle
}

/// The enriched message of a failed bulk copy always contains the table
/// name that was passed in, whatever the table name and the cause.
pub proof fn lemma_copy_failed_message_contains_table(table: String, detail: String)
    ensures
        contains_seq(
            message_of(BulkError::CopyFailed { table, detail }),
            table@,
        ),
{
    let prefix = "Bulk copy failed for table '"@;
    let msg = message_of(BulkError::CopyFailed { table, detail });
    let i = prefix.len() as int;
    assert(msg.subrange(i, i + table@.len() as int) =~= table@);
}

} // verus!
