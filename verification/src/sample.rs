//! A small demonstration connection type and helper functions, unrelated to
//! the bulk-copy adapter: a connection record with a connect/disconnect
//! lifecycle, arithmetic, and connection-string formatting.

use vstd::prelude::*;
use vstd::string::StringExecFns;

verus! {

/// The exact string `connect` reports for a given connection string.
pub open spec fn connected_message_of(cs: Seq<char>) -> Seq<char> {
    "Connected to: "@ + cs
}

/// The exact display form of a connection record.
pub open spec fn repr_of(cs: Seq<char>, connected: bool) -> Seq<char> {
    "RustConnection(connection_string='"@ + cs + "', connected="@ + (if connected {
        "true"@
    } else {
        "false"@
    }) + ")"@
}

/// The exact result of formatting a connection string from its parts.
pub open spec fn connection_string_of(host: Seq<char>, database: Seq<char>, user: Seq<char>) -> Seq<
    char,
> {
    "Server="@ + host + ";Database="@ + database + ";User Id="@ + user + ";"@
}

/// A sample connection record: a connection string and a connected flag.
pub struct RustConnection {
    connection_string: String,
    is_connected: bool,
}

impl RustConnection {
    /// The connection string the record was built with.
    pub closed spec fn spec_connection_string(self) -> Seq<char> {
        self.connection_string@
    }

    /// Whether the record is currently marked connected.
    pub closed spec fn spec_is_connected(self) -> bool {
        self.is_connected
    }

    /// A new record, initially disconnected.
    pub fn new(connection_string: String) -> (r: Self)
        ensures
            r.spec_connection_string() == connection_string@,
            !r.spec_is_connected(),
    {
        RustConnection { connection_string, is_connected: false }
    }

    /// Mark the record connected and report the target.
    pub fn connect(&mut self) -> (r: String)
        ensures
            final(self).spec_is_connected(),
            final(self).spec_connection_string() == old(self).spec_connection_string(),
            r@ == connected_message_of(old(self).spec_connection_string()),
    {
        self.is_connected = true;
        let mut m = "Connected to: ".to_owned();
        m.append(self.connection_string.as_str());
        m
    }

    /// Mark the record disconnected.
    pub fn disconnect(&mut self)
        ensures
            !final(self).spec_is_connected(),
            final(self).spec_connection_string() == old(self).spec_connection_string(),
    {
        self.is_connected = false;
    }

    /// Whether the record is marked connected.
    pub fn is_connected(&self) -> (r: bool)
        ensures
            r == self.spec_is_connected(),
    {
        self.is_connected
    }

    /// The display form of the record; exactly [`repr_of`].
    pub fn __repr__(&self) -> (r: String)
        ensures
            r@ == repr_of(self.spec_connection_string(), self.spec_is_connected()),
    {
        let mut m = "RustConnection(connection_string='".to_owned();
        m.append(self.connection_string.as_str());
        m.append("', connected=");
        if self.is_connected {
            m.append("true");
        } else {
            m.append("false");
        }
        m.append(")");
        m
    }
}

/// Add two numbers.  The sum must fit the machine integer.
pub fn add_numbers(a: i64, b: i64) -> (r: i64)
    requires
        i64::MIN <= a + b <= i64::MAX,
    ensures
        r == a + b,
{
    a + b
}

/// Format a connection string from host, database and user; exactly
/// [`connection_string_of`].
pub fn format_connection_string(host: String, database: String, user: String) -> (r: String)
    ensures
        r@ == connection_string_of(host@, database@, user@),
{
    let mut m = "Server=".to_owned();
    m.append(host.as_str());
    m.append(";Database=");
    m.append(database.as_str());
    m.append(";User Id=");
    m.append(user.as_str());
    m.append(";");
    m
}

/// The version string of the binding layer.
pub fn rust_version() -> (r: String)
    ensures
        r@ == "Rust bindings v0.1.0 (PyO3)"@,
{
    "Rust bindings v0.1.0 (PyO3)".to_owned()
}

} // verus!
