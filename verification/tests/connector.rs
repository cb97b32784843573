use sqlite_connector::{ConnectorError, Id, ParameterizedValue, Sqlite};

const TABLE_DEF: &str = r#"
    CREATE TABLE USER (
        ID INT PRIMARY KEY     NOT NULL,
        NAME           TEXT    NOT NULL,
        AGE            INT     NOT NULL,
        SALARY         REAL
    );
    "#;

const CREATE_USER: &str = r#"
    INSERT INTO USER (ID,NAME,AGE,SALARY)
    VALUES (1, 'Joe', 27, 20000.00 );
    "#;

#[test]
fn should_provide_a_database_connection() {
    let connection = Sqlite::new("db/test.db").unwrap();
    let res = connection.query_raw("SELECT * FROM sqlite_master", &[]).unwrap();

    assert!(res.is_empty());
}

#[test]
fn should_provide_a_database_transaction() {
    let connection = Sqlite::new("db/test.db").unwrap();
    let tx = connection.start_transaction().unwrap();
    let res = tx.query_raw("SELECT * FROM sqlite_master", &[]).unwrap();

    assert!(res.is_empty());
}

#[test]
fn should_map_columns_correctly() {
    let connection = Sqlite::try_from("file:db/test.db").unwrap();

    connection.query_raw(TABLE_DEF, &[]).unwrap();
    connection.query_raw(CREATE_USER, &[]).unwrap();

    let rows = connection.query_raw("SELECT * FROM USER", &[]).unwrap();
    assert_eq!(rows.len(), 1);

    assert_eq!(rows.value_at(0, "ID").unwrap().as_i64(), Some(1));
    assert_eq!(rows.value_at(0, "NAME").unwrap().as_str(), Some("Joe"));
    assert_eq!(rows.value_at(0, "AGE").unwrap().as_i64(), Some(27));
    let bits = rows.value_at(0, "SALARY").unwrap().as_real_bits().unwrap();
    assert_eq!(f64::from_bits(bits), 20000.0);
}

#[test]
fn query_against_empty_table_returns_empty_result_set() {
    let connection = Sqlite::new(":memory:").unwrap();
    connection.raw_cmd("CREATE TABLE empty_one (a INT, b TEXT)").unwrap();

    let res = connection.query_raw("SELECT * FROM empty_one", &[]).unwrap();
    assert_eq!(res.len(), 0);
    assert!(res.is_empty());
    assert_eq!(res.column_count(), 2);
    assert!(res.column_index("a").is_some());
    assert!(res.column_index("b").is_some());
    assert!(res.column_index("missing").is_none());
}

#[test]
fn attach_database_twice_is_idempotent() {
    let mut connection = Sqlite::new(":memory:").unwrap();
    connection.attach_database("extra").unwrap();
    connection.attach_database("extra").unwrap();

    let rs = connection.query_raw("PRAGMA database_list", &[]).unwrap();
    let mut occurrences = 0;
    let mut i = 0;
    while i < rs.len() {
        let row = rs.get(i).unwrap();
        if row.get(1).and_then(|v| v.as_str()) == Some("extra") {
            occurrences += 1;
        }
        i += 1;
    }
    assert_eq!(occurrences, 1);
}

#[test]
fn execute_returns_id_only_for_inserts() {
    let connection = Sqlite::new(":memory:").unwrap();
    connection.raw_cmd("CREATE TABLE t (id INTEGER PRIMARY KEY, v TEXT)").unwrap();

    let inserted = connection.execute("INSERT INTO t (v) VALUES ('a')", &[]).unwrap();
    assert_eq!(inserted, Some(Id::Int(1)));

    let updated = connection.execute("UPDATE t SET v = 'b' WHERE id = 1", &[]).unwrap();
    assert_eq!(updated, None);
}

#[test]
fn bound_parameters_round_trip() {
    let connection = Sqlite::new(":memory:").unwrap();
    connection.raw_cmd("CREATE TABLE kv (k TEXT, i INT, b BLOB, f INT)").unwrap();

    let params = vec![
        ParameterizedValue::Text("hello".to_string()),
        ParameterizedValue::Integer(42),
        ParameterizedValue::Bytes(vec![1, 2, 3]),
        ParameterizedValue::Boolean(true),
    ];
    connection.execute_raw("INSERT INTO kv (k, i, b, f) VALUES (?, ?, ?, ?)", &params).unwrap();

    let rs = connection.query_raw("SELECT k, i, b, f FROM kv", &[]).unwrap();
    assert_eq!(rs.len(), 1);
    assert_eq!(rs.value_at(0, "k").unwrap().as_str(), Some("hello"));
    assert_eq!(rs.value_at(0, "i").unwrap().as_i64(), Some(42));
    match rs.value_at(0, "b").unwrap() {
        ParameterizedValue::Bytes(b) => assert_eq!(b.as_slice(), &[1u8, 2, 3]),
        other => panic!("expected a byte value, got {:?}", other),
    }
    assert_eq!(rs.value_at(0, "f").unwrap().as_i64(), Some(1));
}

#[test]
fn real_values_are_read_back_as_bit_patterns() {
    let connection = Sqlite::new(":memory:").unwrap();
    let rs = connection.query_raw("SELECT 2.5 AS x", &[]).unwrap();
    let bits = rs.value_at(0, "x").unwrap().as_real_bits().unwrap();
    assert_eq!(bits, 2.5f64.to_bits());
}

#[test]
fn real_parameters_are_rejected_at_binding() {
    let connection = Sqlite::new(":memory:").unwrap();
    connection.raw_cmd("CREATE TABLE r (x REAL)").unwrap();
    let params = vec![ParameterizedValue::Real(2.5f64.to_bits())];
    let err = match connection.execute_raw("INSERT INTO r (x) VALUES (?)", &params) {
        Ok(_) => panic!("binding a floating-point parameter must be rejected"),
        Err(e) => e,
    };
    assert!(matches!(err, ConnectorError::UnsupportedParameter));
}

#[test]
fn engine_errors_are_wrapped() {
    let connection = Sqlite::new(":memory:").unwrap();
    let err = match connection.query_raw("THIS IS NOT SQL", &[]) {
        Ok(_) => panic!("malformed SQL must fail"),
        Err(e) => e,
    };
    assert!(matches!(err, ConnectorError::Engine(_)));
}

#[test]
fn fk_constraint_toggles_succeed() {
    let connection = Sqlite::new(":memory:").unwrap();
    connection.turn_off_fk_constraints().unwrap();
    let off = connection.query_raw("PRAGMA foreign_keys", &[]).unwrap();
    assert_eq!(off.value_at(0, "foreign_keys").unwrap().as_i64(), Some(0));
    connection.turn_on_fk_constraints().unwrap();
    let on = connection.query_raw("PRAGMA foreign_keys", &[]).unwrap();
    assert_eq!(on.value_at(0, "foreign_keys").unwrap().as_i64(), Some(1));
}

#[test]
fn transaction_rollback_discards_changes() {
    let connection = Sqlite::new(":memory:").unwrap();
    connection.raw_cmd("CREATE TABLE t (v INT)").unwrap();
    let tx = connection.start_transaction().unwrap();
    tx.execute_raw("INSERT INTO t (v) VALUES (5)", &[]).unwrap();
    tx.rollback().unwrap();
    let rs = connection.query_raw("SELECT v FROM t", &[]).unwrap();
    assert!(rs.is_empty());
}

#[test]
fn transaction_commit_keeps_changes() {
    let connection = Sqlite::new(":memory:").unwrap();
    connection.raw_cmd("CREATE TABLE t (v INT)").unwrap();
    let tx = connection.start_transaction().unwrap();
    tx.execute_raw("INSERT INTO t (v) VALUES (5)", &[]).unwrap();
    tx.commit().unwrap();
    let rs = connection.query_raw("SELECT v FROM t", &[]).unwrap();
    assert_eq!(rs.value_at(0, "v").unwrap().as_i64(), Some(5));
}
