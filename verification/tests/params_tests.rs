use mssql_rust_bindings::params::parse_connection_params;

fn pairs(parsed: &[(String, String)]) -> Vec<(&str, &str)> {
    parsed.iter().map(|kv| (kv.0.as_str(), kv.1.as_str())).collect()
}

#[test]
fn parses_simple_pairs() {
    let parsed = parse_connection_params("Server=localhost;Database=mydb");
    assert_eq!(pairs(&parsed), vec![("Server", "localhost"), ("Database", "mydb")]);
}

#[test]
fn trims_whitespace_around_keys_and_values() {
    let parsed = parse_connection_params("  Server = localhost ; Database =  mydb  ");
    assert_eq!(pairs(&parsed), vec![("Server", "localhost"), ("Database", "mydb")]);
}

#[test]
fn skips_parts_without_equals() {
    let parsed = parse_connection_params("a=1;junk;b=2");
    assert_eq!(pairs(&parsed), vec![("a", "1"), ("b", "2")]);
}

#[test]
fn empty_string_yields_no_pairs() {
    let parsed = parse_connection_params("");
    assert!(parsed.is_empty());
}

#[test]
fn splits_at_first_equals_only() {
    let parsed = parse_connection_params("key=a=b");
    assert_eq!(pairs(&parsed), vec![("key", "a=b")]);
}

#[test]
fn keeps_duplicate_keys_in_order() {
    // Later pairs take precedence when the result is loaded into a mapping.
    let parsed = parse_connection_params("a=1;a=2");
    assert_eq!(pairs(&parsed), vec![("a", "1"), ("a", "2")]);
}

#[test]
fn trailing_separator_adds_nothing() {
    let parsed = parse_connection_params("a=1;");
    assert_eq!(pairs(&parsed), vec![("a", "1")]);
}

#[test]
fn empty_key_or_value_is_kept() {
    let parsed = parse_connection_params("=v;k=");
    assert_eq!(pairs(&parsed), vec![("", "v"), ("k", "")]);
}

#[test]
fn trims_unicode_whitespace() {
    let parsed = parse_connection_params("\u{00A0}key\u{2003}=\u{3000}value\u{00A0}");
    assert_eq!(pairs(&parsed), vec![("key", "value")]);
}

#[test]
fn non_ascii_content_is_preserved() {
    let parsed = parse_connection_params("gr\u{00FC}sse=caf\u{00E9}");
    assert_eq!(pairs(&parsed), vec![("gr\u{00FC}sse", "caf\u{00E9}")]);
}
