use mssql_rust_bindings::adapter::{
    close_outcome, copy_outcome, BulkCopyWrapper, ConnectOutcome, Connection,
};
use mssql_rust_bindings::errors::{BulkError, ErrorKind};

/// An in-memory stand-in for an external connection, with a configurable
/// capability set and configurable outcomes.
#[derive(Debug)]
struct FakeConnection {
    has: bool,
    copy_result: Result<i64, String>,
    close_result: Result<(), String>,
}

impl FakeConnection {
    fn good(value: i64) -> Self {
        FakeConnection { has: true, copy_result: Ok(value), close_result: Ok(()) }
    }
}

impl Connection for FakeConnection {
    type Data = Vec<(String, i64)>;
    type Output = i64;

    fn offers_bulk_copy(&self) -> bool {
        self.has
    }

    fn has_bulk_copy(&self) -> bool {
        self.has
    }

    fn bulk_copy(&mut self, _table_name: &str, _data: Self::Data) -> Result<i64, String> {
        self.copy_result.clone()
    }

    fn close(&mut self) -> Result<(), String> {
        self.close_result.clone()
    }
}

fn sample_rows() -> Vec<(String, i64)> {
    vec![("id".to_string(), 1), ("qty".to_string(), 2)]
}

/// A stand-in for the external connection constructor: it demands the usual
/// connection keys and produces a live connection when they are all present.
fn fake_constructor(params: &[(String, String)], value: i64) -> ConnectOutcome<FakeConnection> {
    for required in ["server", "database", "user_name", "password"] {
        if !params.iter().any(|kv| kv.0 == required) {
            return ConnectOutcome::Failed { detail: format!("missing key: {required}") };
        }
    }
    ConnectOutcome::Connected { connection: FakeConnection::good(value) }
}

fn full_params() -> Vec<(String, String)> {
    vec![
        ("server".to_string(), "db1".to_string()),
        ("database".to_string(), "sales".to_string()),
        ("user_name".to_string(), "u".to_string()),
        ("password".to_string(), "p".to_string()),
    ]
}

#[test]
fn successful_bulk_copy_passes_result_through() {
    // Construct from a complete parameter mapping, then bulk copy: the
    // external result comes back unchanged.
    let mut wrapper =
        BulkCopyWrapper::from_connect_outcome(fake_constructor(&full_params(), 42)).unwrap();
    let result = wrapper.bulk_copy("orders", sample_rows());
    assert_eq!(result, Ok(42));
}

#[test]
fn missing_required_key_fails_construction() {
    let mut params = full_params();
    params.retain(|kv| kv.0 != "password");
    let err = BulkCopyWrapper::from_connect_outcome(fake_constructor(&params, 42)).unwrap_err();
    assert_eq!(err, BulkError::ConnectionFailed { detail: "missing key: password".to_string() });
    assert_eq!(err.kind(), ErrorKind::Runtime);
}

#[test]
fn adopted_connection_passes_result_through() {
    let mut wrapper = BulkCopyWrapper::new(FakeConnection::good(7));
    assert_eq!(wrapper.bulk_copy("items", vec![]), Ok(7));
}

#[test]
fn missing_capability_yields_fixed_error() {
    let conn = FakeConnection { has: false, copy_result: Ok(1), close_result: Ok(()) };
    let mut wrapper = BulkCopyWrapper::new(conn);
    let result = wrapper.bulk_copy("orders", vec![]);
    assert_eq!(result, Err(BulkError::MissingBulkCopy));
    let err = result.unwrap_err();
    assert_eq!(
        err.message(),
        "bulk_copy method not implemented in mssql_core_tds.DdbcConnection"
    );
    assert_eq!(err.kind(), ErrorKind::Attribute);
}

#[test]
fn missing_capability_ignores_table_and_data() {
    let conn = FakeConnection { has: false, copy_result: Ok(1), close_result: Ok(()) };
    let mut wrapper = BulkCopyWrapper::new(conn);
    let result = wrapper.bulk_copy("another_table", sample_rows());
    assert_eq!(result, Err(BulkError::MissingBulkCopy));
}

#[test]
fn failed_bulk_copy_is_enriched_with_table_name() {
    let conn = FakeConnection {
        has: true,
        copy_result: Err("duplicate key".to_string()),
        close_result: Ok(()),
    };
    let mut wrapper = BulkCopyWrapper::new(conn);
    let err = wrapper.bulk_copy("orders", sample_rows()).unwrap_err();
    assert_eq!(
        err,
        BulkError::CopyFailed { table: "orders".to_string(), detail: "duplicate key".to_string() }
    );
    let message = err.message();
    assert_eq!(message, "Bulk copy failed for table 'orders': duplicate key");
    assert!(message.contains("orders"));
    assert_eq!(err.kind(), ErrorKind::Runtime);
}

#[test]
fn module_import_failure_yields_import_error() {
    let outcome: ConnectOutcome<FakeConnection> =
        ConnectOutcome::ModuleMissing { detail: "No module named 'mssql_core_tds'".to_string() };
    let err = BulkCopyWrapper::from_connect_outcome(outcome).unwrap_err();
    assert_eq!(
        err,
        BulkError::ModuleUnavailable { detail: "No module named 'mssql_core_tds'".to_string() }
    );
    assert_eq!(
        err.message(),
        "Failed to import mssql_core_tds: No module named 'mssql_core_tds'"
    );
    assert_eq!(err.kind(), ErrorKind::Import);
}

#[test]
fn constructor_lookup_failure_yields_attribute_error() {
    let outcome: ConnectOutcome<FakeConnection> =
        ConnectOutcome::ConstructorMissing { detail: "no attribute".to_string() };
    let err = BulkCopyWrapper::from_connect_outcome(outcome).unwrap_err();
    assert_eq!(err, BulkError::ConstructorUnavailable { detail: "no attribute".to_string() });
    assert_eq!(err.message(), "Failed to get DdbcConnection class: no attribute");
    assert_eq!(err.kind(), ErrorKind::Attribute);
}

#[test]
fn constructor_call_failure_yields_runtime_error() {
    // A parameter mapping missing required keys makes the external
    // constructor fail; the wrapper surfaces that as a construction failure.
    let outcome: ConnectOutcome<FakeConnection> =
        ConnectOutcome::Failed { detail: "missing key: password".to_string() };
    let err = BulkCopyWrapper::from_connect_outcome(outcome).unwrap_err();
    assert_eq!(err, BulkError::ConnectionFailed { detail: "missing key: password".to_string() });
    assert_eq!(err.message(), "Failed to create DdbcConnection: missing key: password");
    assert_eq!(err.kind(), ErrorKind::Runtime);
}

#[test]
fn close_surfaces_success() {
    let mut wrapper = BulkCopyWrapper::new(FakeConnection::good(0));
    assert_eq!(wrapper.close(), Ok(()));
}

#[test]
fn close_surfaces_failure_unmodified() {
    let conn = FakeConnection {
        has: true,
        copy_result: Ok(0),
        close_result: Err("connection already closed".to_string()),
    };
    let mut wrapper = BulkCopyWrapper::new(conn);
    assert_eq!(wrapper.close(), Err("connection already closed".to_string()));
}

#[test]
fn repr_is_fixed_and_names_the_module() {
    let wrapper = BulkCopyWrapper::new(FakeConnection::good(0));
    assert_eq!(wrapper.__repr__(), "BulkCopyWrapper(mssql_core_tds)");
}

#[test]
fn copy_outcome_is_identity_on_success() {
    let r: Result<i64, BulkError> = copy_outcome("orders", Ok(42));
    assert_eq!(r, Ok(42));
}

#[test]
fn copy_outcome_enriches_failure() {
    let r: Result<i64, BulkError> = copy_outcome("orders", Err("timeout".to_string()));
    assert_eq!(
        r,
        Err(BulkError::CopyFailed { table: "orders".to_string(), detail: "timeout".to_string() })
    );
}

#[test]
fn close_outcome_is_identity() {
    assert_eq!(close_outcome(Ok(())), Ok(()));
    assert_eq!(close_outcome(Err("boom".to_string())), Err("boom".to_string()));
}
