use sqlite_connector::{ConnectorError, SqliteParams};

#[test]
fn sqlite_params_from_str_should_resolve_path_correctly() {
    let path = "file:dev.db";
    let params = SqliteParams::try_from(path).unwrap();
    assert_eq!(params.file_path, "dev.db");
}

#[test]
fn scheme_prefix_is_stripped_once() {
    let params = SqliteParams::try_from("file:some/dir/app.db").unwrap();
    assert_eq!(params.file_path, "some/dir/app.db");
    assert!(params.db_name.is_none());
}

#[test]
fn default_connection_limit_is_positive() {
    let params = SqliteParams::try_from("dev.db").unwrap();
    assert!(params.connection_limit >= 3);
}

#[test]
fn directory_path_is_rejected() {
    let err = match SqliteParams::try_from("file:.") {
        Ok(_) => panic!("a directory must be rejected"),
        Err(e) => e,
    };
    match err {
        ConnectorError::DatabaseUrlIsInvalid(p) => assert_eq!(p, "."),
        other => panic!("expected DatabaseUrlIsInvalid, got {:?}", other),
    }
}

#[test]
fn non_integer_connection_limit_is_rejected() {
    let err = match SqliteParams::try_from("file:dev.db?connection_limit=abc") {
        Ok(_) => panic!("a malformed connection_limit must be rejected"),
        Err(e) => e,
    };
    assert!(matches!(err, ConnectorError::InvalidConnectionArguments));
}

#[test]
fn zero_connection_limit_is_rejected() {
    let err = match SqliteParams::try_from("file:dev.db?connection_limit=0") {
        Ok(_) => panic!("a zero connection_limit must be rejected"),
        Err(e) => e,
    };
    assert!(matches!(err, ConnectorError::InvalidConnectionArguments));
}

#[test]
fn explicit_connection_limit_is_used() {
    let params = SqliteParams::try_from("file:dev.db?connection_limit=12").unwrap();
    assert_eq!(params.connection_limit, 12);
    let plus = SqliteParams::try_from("file:dev.db?connection_limit=+7").unwrap();
    assert_eq!(plus.connection_limit, 7);
}

#[test]
fn later_connection_limit_overrides_earlier() {
    let params = SqliteParams::try_from("a.db?connection_limit=5&connection_limit=9").unwrap();
    assert_eq!(params.connection_limit, 9);
}

#[test]
fn db_name_is_stored_verbatim_and_unknown_keys_are_discarded() {
    let params = SqliteParams::try_from("file:dev.db?db_name=main&unknown=x").unwrap();
    assert_eq!(params.file_path, "dev.db");
    assert_eq!(params.db_name.as_deref(), Some("main"));
}

#[test]
fn segment_without_equals_sign_is_discarded() {
    let params = SqliteParams::try_from("a.db?flag&db_name=z").unwrap();
    assert_eq!(params.db_name.as_deref(), Some("z"));
    assert_eq!(params.file_path, "a.db");
}

#[test]
fn empty_path_component_is_rejected() {
    for address in ["", "file:", "file:?db_name=x", "?connection_limit=4"] {
        let err = match SqliteParams::try_from(address) {
            Ok(_) => panic!("an empty path component must be rejected: {:?}", address),
            Err(e) => e,
        };
        match err {
            ConnectorError::DatabaseUrlIsInvalid(p) => assert_eq!(p, ""),
            other => panic!("expected DatabaseUrlIsInvalid, got {:?}", other),
        }
    }
}

#[test]
fn default_connection_limit_has_doubled_plus_one_shape() {
    let params = SqliteParams::try_from("dev.db").unwrap();
    assert!(params.connection_limit >= 3);
    assert_eq!(params.connection_limit % 2, 1);
}
