//! The bulk-copy adapter itself.
//!
//! [`BulkCopyWrapper`] holds a connection, probes it for the bulk-copy
//! capability before every call, forwards the call, and classifies every
//! failure.  The connection is any implementor of [`Connection`]; the glue
//! that drives the real external connectivity module lives outside this
//! crate and hands the adapter plain outcome values.
//!
//! The error policy is context enrichment: a failed bulk copy is surfaced
//! with the table name and the original error text attached, never
//! suppressed; a failed `close` is surfaced verbatim.

use vstd::prelude::*;
use crate::errors::BulkError;

verus! {

/// The capability set a held connection must offer.
///
/// This is the statically typed form of the duck-typed contract the external
/// connectivity module's connections follow: a probe for the bulk-copy
/// capability, the bulk-copy call itself, and `close`.  Nothing is promised
/// of what `bulk_copy` or `close` return — the external module alone decides
/// that — while `has_bulk_copy` must report the capability honestly.
pub trait Connection {
    /// The row payload the connection accepts, passed through uninspected.
    type Data;

    /// The value a successful bulk copy hands back.
    type Output;

    /// Whether this connection offers a bulk-copy capability.
    spec fn offers_bulk_copy(&self) -> bool;

    /// Probe for the bulk-copy capability.
    fn has_bulk_copy(&self) -> (r: bool)
        ensures
            r == self.offers_bulk_copy(),
    ;

    /// Run the bulk insert of `data` into `table_name`.  On failure the
    /// error text of the external cause is handed back.
    fn bulk_copy(&mut self, table_name: &str, data: Self::Data) -> Result<Self::Output, String>;

    /// Close the underlying session.  On failure the error text of the
    /// external cause is handed back.
    fn close(&mut self) -> Result<(), String>;
}

/// What resolving the external connectivity module and opening a new
/// connection produced, step by step: the module import, the constructor
/// lookup, and the constructor call can each fail in turn.
pub enum ConnectOutcome<C> {
    /// The connectivity module could not be imported.
    ModuleMissing { detail: String },
    /// The module was found but lacks the connection constructor.
    ConstructorMissing { detail: String },
    /// The constructor was found, ran, and failed.
    Failed { detail: String },
    /// A live connection.
    Connected { connection: C },
}

/// Classify the outcome of a forwarded bulk-copy call: a success is handed
/// back unchanged (identity pass-through), a failure is enriched with the
/// table name so that the surfaced message names both the table and the
/// original cause.
pub fn copy_outcome<V>(table_name: &str, outcome: Result<V, String>) -> (r: Result<V, BulkError>)
    ensures
        outcome matches Ok(v) ==> r matches Ok(w) && w == v,
        outcome matches Err(d) ==> r matches Err(e) && e matches BulkError::CopyFailed {
            table,
            detail,
        } && table@ == table_name@ && detail == d,
{
    match outcome {
        Ok(v) => Ok(v),
        Err(d) => Err(BulkError::CopyFailed { table: table_name.to_owned(), detail: d }),
    }
}

/// Surface the outcome of a forwarded `close` call unmodified: no
/// transformation, no enrichment, no suppression.
pub fn close_outcome(outcome: Result<(), String>) -> (r: Result<(), String>)
    ensures
        r == outcome,
{
    outcome
}

/// Adapter exposing bulk-copy operations on a held connection.
#[derive(Debug)]
pub struct BulkCopyWrapper<C> {
    connection: C,
}

impl<C: Connection> BulkCopyWrapper<C> {
    /// The connection the wrapper holds.
    pub closed spec fn conn(self) -> C {
        self.connection
    }

    /// Wrap an already-open connection.  No validation is performed at
    /// construction time.
    pub fn new(connection: C) -> (r: Self)
        ensures
            r.conn() == connection,
    {
        BulkCopyWrapper { connection }
    }

    /// Build a wrapper from the outcome of resolving and opening a new
    /// connection.  A wrapper exists exactly when a live connection was
    /// produced; each failed step yields its own error, so a construction
    /// failure can never leave partial state behind.
    pub fn from_connect_outcome(outcome: ConnectOutcome<C>) -> (r: Result<Self, BulkError>)
        ensures
            r is Err <==> !(outcome is Connected),
            outcome matches ConnectOutcome::Connected { connection } ==> r matches Ok(w)
                && w.conn() == connection,
            outcome matches ConnectOutcome::ModuleMissing { detail } ==> r matches Err(e) && e
                == (BulkError::ModuleUnavailable { detail }),
            outcome matches ConnectOutcome::ConstructorMissing { detail } ==> r matches Err(e) && e
                == (BulkError::ConstructorUnavailable { detail }),
            outcome matches ConnectOutcome::Failed { detail } ==> r matches Err(e) && e
                == (BulkError::ConnectionFailed { detail }),
    {
        match outcome {
            ConnectOutcome::Connected { connection } => Ok(BulkCopyWrapper { connection }),
            ConnectOutcome::ModuleMissing { detail } => Err(
                BulkError::ModuleUnavailable { detail },
            ),
            ConnectOutcome::ConstructorMissing { detail } => Err(
                BulkError::ConstructorUnavailable { detail },
            ),
            ConnectOutcome::Failed { detail } => Err(BulkError::ConnectionFailed { detail }),
        }
    }

    /// Probe the held connection for the bulk-copy capability, then forward
    /// the call.  A connection without the capability always yields
    /// [`BulkError::MissingBulkCopy`], whatever the table name and data; a
    /// failure of the forwarded call is enriched with the table name.
    pub fn bulk_copy(&mut self, table_name: &str, data: C::Data) -> (r: Result<
        C::Output,
        BulkError,
    >)
        ensures
            !old(self).conn().offers_bulk_copy() ==> (r matches Err(e) && e
                == BulkError::MissingBulkCopy && *final(self) == *old(self)),
            old(self).conn().offers_bulk_copy() ==> (r matches Err(e) ==> (e
                matches BulkError::CopyFailed { table, detail: _ } && table@ == table_name@)),
    {
        if !self.connection.has_bulk_copy() {
            return Err(BulkError::MissingBulkCopy);
        }
        let outcome = self.connection.bulk_copy(table_name, data);
        copy_outcome(table_name, outcome)
    }

    /// Forward `close` to the held connection with no arguments.  The
    /// outcome — success or the external error text — is surfaced
    /// unmodified.
    pub fn close(&mut self) -> Result<(), String> {
        close_outcome(self.connection.close())
    }

    /// The display form of the wrapper: a fixed description naming the
    /// underlying connectivity module.  No dynamic state is reflected.
    pub fn __repr__(&self) -> (r: String)
        ensures
            r@ == "BulkCopyWrapper(mssql_core_tds)"@,
    {
        "BulkCopyWrapper(mssql_core_tds)".to_owned()
    }
}

} // verus!
