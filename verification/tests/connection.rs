use db_mgr::coerce::NativeValue;
use db_mgr::db_mysql::DbMysql;
use db_mgr::db_mysql::Liveness;
use db_mgr::db_sqlite::DbSqlite;
use db_mgr::db_trait::DbTrait;
use db_mgr::error::DbError;
use db_mgr::marshal::ExecSummary;
use db_mgr::marshal::ResultSet;
use db_mgr::marshal::DB_RESULT_PROTO;
use db_mgr::schema::Schema;
use db_mgr::sink::Sink;
use db_mgr::value::TypeTag;
use db_mgr::value::TypedValue;

fn people() -> Schema {
    let mut schema = Schema::new();
    schema.define("age".to_string(), TypeTag::U32);
    schema.define("name".to_string(), TypeTag::Str);
    schema
}

fn two_rows() -> ResultSet {
    ResultSet {
        columns: vec!["name".to_string(), "age".to_string(), "extra".to_string()],
        rows: vec![
            vec![NativeValue::Bytes(b"Alice".to_vec()), NativeValue::Int(25), NativeValue::Int(1)],
            vec![NativeValue::Bytes(b"Bob".to_vec()), NativeValue::Null, NativeValue::Int(2)],
        ],
        last_insert_id: None,
        affected_rows: 2,
    }
}

fn server_error(code: u16, message: &str) -> DbError {
    DbError::NativeCoded { code: i32::from(code), message: message.to_string() }
}

fn broken_pipe() -> DbError {
    DbError::Io("pipe is gone".to_string())
}

fn constraint_failure() -> DbError {
    DbError::NativeCoded { code: 2067, message: "UNIQUE constraint failed: t.id".to_string() }
}

#[test]
fn new_connection_is_connected_and_clean() {
    let db = DbMysql::new(7u8);
    assert_eq!(db.conn, 7);
    assert_eq!(db.get_last_insert_id(), 0);
    assert_eq!(db.get_affected_rows(), 0);
    assert_eq!(db.get_error_code(), 0);
    assert_eq!(db.get_error_str(), None);
    assert!(db.is_connected());
    assert_eq!(db.get_character_set(), 0);
    assert!(db.last_use_time > 1_500_000_000_000_000_000);
    let lite = DbSqlite::new("handle");
    assert_eq!(lite.conn, "handle");
    assert_eq!(lite.get_last_insert_id(), 0);
    assert_eq!(lite.get_affected_rows(), 0);
    assert_eq!(lite.get_error_code(), 0);
    assert_eq!(lite.get_error_str(), None);
    assert!(lite.is_connected());
    assert_eq!(lite.get_character_set(), 0);
    assert!(lite.last_use_time > 1_500_000_000_000_000_000);
}

#[test]
fn ping_that_answers_lets_the_operation_go_on() {
    let mut db = DbMysql::new(());
    assert_eq!(db.check_connect(true), Liveness::Ready);
    assert!(db.is_connected());
}

#[test]
fn ping_fails_and_reset_succeeds() {
    let mut db = DbMysql::new(());
    assert_eq!(db.check_connect(false), Liveness::Reset);
    assert!(!db.is_connected());
    assert!(db.after_reset(true).is_ok());
    assert!(db.is_connected());
    let mut sink = Sink::new();
    assert_eq!(db.select(Ok(two_rows()), &people(), &mut sink), 0);
    assert_eq!(sink.len(), 3);
    assert_eq!(db.select(Err(server_error(1146, "no such table")), &people(), &mut sink), 1146);
    assert_eq!(sink.len(), 3);
    assert!(db.is_connected());
}

#[test]
fn ping_fails_and_reset_fails() {
    let mut db = DbMysql::new(11u32);
    db.last_insert_id = 5;
    db.affected_rows = 6;
    assert_eq!(db.check_connect(false), Liveness::Reset);
    let fault = db.after_reset(false);
    assert!(fault.is_err());
    assert_eq!(fault.unwrap_err().message(), "reconnect db error");
    assert!(!db.is_connected());
    assert_eq!(db.conn, 11);
    assert_eq!(db.get_last_insert_id(), 5);
    assert_eq!(db.get_affected_rows(), 6);
    assert_eq!(db.get_error_code(), 0);
}

#[test]
fn dead_connection_recovers_at_a_later_probe() {
    let mut db = DbMysql::new(());
    assert_eq!(db.check_connect(false), Liveness::Reset);
    assert!(db.after_reset(false).is_err());
    assert_eq!(db.check_connect(false), Liveness::Reset);
    assert!(db.after_reset(true).is_ok());
    assert!(db.is_connected());
}

#[test]
fn embedded_connection_is_always_fit() {
    let mut db = DbSqlite::new(());
    assert!(db.check_connect().is_ok());
    assert!(db.is_connected());
}

#[test]
fn select_puts_the_rows_into_the_sink() {
    let mut db = DbMysql::new(());
    db.last_insert_id = 9;
    let mut sink = Sink::new();
    let status = db.select(Ok(two_rows()), &people(), &mut sink);
    assert_eq!(status, 0);
    assert_eq!(sink.len(), 3);
    assert_eq!(sink.get(0).unwrap().name, "name");
    assert_eq!(sink.get(0).unwrap().value, TypedValue::Str("Alice".to_string()));
    assert_eq!(sink.get(1).unwrap().name, "age");
    assert_eq!(sink.get(1).unwrap().value, TypedValue::U32(25));
    assert_eq!(sink.get(2).unwrap().name, "name");
    assert_eq!(sink.get(2).unwrap().value, TypedValue::Str("Bob".to_string()));
    assert_eq!(db.get_last_insert_id(), 0);
    assert_eq!(db.get_affected_rows(), 2);
    assert_eq!(db.get_error_code(), 0);
    assert_eq!(db.get_error_str(), None);
}

#[test]
fn select_takes_the_counters_of_the_result_set() {
    let mut db = DbSqlite::new(());
    let mut sink = Sink::new();
    let mut rs = two_rows();
    rs.last_insert_id = Some(77);
    rs.affected_rows = 12;
    assert_eq!(db.select(Ok(rs), &people(), &mut sink), 0);
    assert_eq!(db.get_last_insert_id(), 77);
    assert_eq!(db.get_affected_rows(), 12);
    assert_eq!(sink.len(), 3);
}

#[test]
fn select_that_fails_with_a_coded_error_returns_the_code() {
    let mut db = DbMysql::new(());
    db.last_insert_id = 3;
    db.affected_rows = 4;
    let mut sink = Sink::new();
    let status = db.select(Err(server_error(1146, "Table 'db.t' doesn't exist")), &people(), &mut sink);
    assert_eq!(status, 1146);
    assert_eq!(sink.len(), 0);
    assert_eq!(db.get_error_code(), 1146);
    assert_eq!(db.get_error_str(), Some("Table 'db.t' doesn't exist".to_string()));
    assert_eq!(
        db.error,
        Some(DbError::NativeCoded { code: 1146, message: "Table 'db.t' doesn't exist".to_string() })
    );
    assert_eq!(db.get_last_insert_id(), 3);
    assert_eq!(db.get_affected_rows(), 4);
    assert!(db.is_connected());
}

#[test]
fn coded_error_keeps_codes_above_15_bits() {
    let mut db = DbMysql::new(());
    assert_eq!(db.execute(Err(server_error(65535, "top"))), 65535);
    assert_eq!(db.get_error_code(), 65535);
}

#[test]
fn select_that_fails_without_a_code_returns_minus_one() {
    let mut db = DbMysql::new(());
    let mut sink = Sink::new();
    let text = "from value conversion error".to_string();
    assert_eq!(db.select(Err(DbError::Uncoded(text.clone())), &people(), &mut sink), -1);
    assert_eq!(db.get_error_code(), -1);
    assert_eq!(db.get_error_str(), Some(text.clone()));
    assert_eq!(db.error, Some(DbError::Uncoded(text)));
    assert_eq!(sink.len(), 0);
}

#[test]
fn failure_of_the_transport_is_classed_as_such() {
    let mut db = DbMysql::new(());
    assert_eq!(db.execute(Err(broken_pipe())), -1);
    assert_eq!(db.get_error_code(), -1);
    assert_eq!(db.error, Some(DbError::Io("pipe is gone".to_string())));
    assert_eq!(db.get_error_str(), Some("pipe is gone".to_string()));
}

#[test]
fn is_io_error_tells_the_transport_apart() {
    assert!(DbMysql::<()>::is_io_error::<u8>(&Err(broken_pipe())));
    assert!(!DbMysql::<()>::is_io_error::<u8>(&Err(server_error(1, "x"))));
    assert!(!DbMysql::<()>::is_io_error::<u8>(&Err(DbError::Uncoded("bad url".to_string()))));
    assert!(DbMysql::<()>::is_io_error::<String>(&Err(DbError::Io(String::new()))));
    assert!(!DbMysql::<()>::is_io_error(&Ok(5u8)));
}

#[test]
fn success_clears_the_error() {
    let mut db = DbMysql::new(());
    let mut sink = Sink::new();
    assert_eq!(db.execute(Err(server_error(1062, "duplicate"))), 1062);
    assert_eq!(db.get_error_code(), 1062);
    assert_eq!(db.select(Ok(two_rows()), &people(), &mut sink), 0);
    assert_eq!(db.get_error_code(), 0);
    assert_eq!(db.get_error_str(), None);
}

#[test]
fn execute_takes_the_counters_of_the_summary() {
    let mut db = DbMysql::new(());
    let status = db.execute(Ok(ExecSummary { last_insert_id: Some(8), affected_rows: 3 }));
    assert_eq!(status, 0);
    assert_eq!(db.get_last_insert_id(), 8);
    assert_eq!(db.get_affected_rows(), 3);
    let status = db.execute(Ok(ExecSummary { last_insert_id: None, affected_rows: 1 }));
    assert_eq!(status, 0);
    assert_eq!(db.get_last_insert_id(), 8);
    assert_eq!(db.get_affected_rows(), 1);
}

#[test]
fn execute_that_fails_keeps_the_counters() {
    let mut db = DbSqlite::new(());
    assert_eq!(db.execute(Ok(ExecSummary { last_insert_id: Some(8), affected_rows: 3 })), 0);
    assert_eq!(db.execute(Err(constraint_failure())), 2067);
    assert_eq!(db.get_error_code(), 2067);
    assert_eq!(db.get_last_insert_id(), 8);
    assert_eq!(db.get_affected_rows(), 3);
    let text = db.get_error_str().unwrap();
    assert!(text.contains("UNIQUE constraint failed"));
}

#[test]
fn embedded_error_without_a_code_returns_minus_one() {
    let mut db = DbSqlite::new(());
    let mut sink = Sink::new();
    let text = "Query returned no rows".to_string();
    assert_eq!(db.select(Err(DbError::Uncoded(text.clone())), &people(), &mut sink), -1);
    assert_eq!(db.error, Some(DbError::Uncoded(text)));
    assert_eq!(db.insert(Err(DbError::Uncoded("Query is not read-only".to_string())), &mut sink), -1);
    assert_eq!(sink.len(), 0);
    assert_eq!(db.get_error_code(), -1);
}

#[test]
fn embedded_failure_bears_the_extended_code() {
    let mut db = DbSqlite::new(());
    let mut sink = Sink::new();
    let text = "SQL logic error".to_string();
    let err = DbError::NativeCoded { code: 1, message: text.clone() };
    assert_eq!(db.select(Err(err), &people(), &mut sink), 1);
    assert_eq!(db.error, Some(DbError::NativeCoded { code: 1, message: text }));
}

#[test]
fn insert_reports_the_assigned_key() {
    let mut db = DbMysql::new(());
    let mut sink = Sink::new();
    sink.put("row".to_string(), TypedValue::U8(1));
    let status = db.insert(Ok(ExecSummary { last_insert_id: Some(42), affected_rows: 1 }), &mut sink);
    assert_eq!(status, 0);
    assert_eq!(db.get_last_insert_id(), 42);
    assert_eq!(db.get_affected_rows(), 1);
    assert_eq!(sink.len(), 2);
    assert_eq!(sink.get(0).unwrap().name, "row");
    assert_eq!(sink.get(1).unwrap().name, DB_RESULT_PROTO);
    assert_eq!(sink.get(1).unwrap().name, "msg_db_result");
    assert_eq!(sink.get(1).unwrap().value, TypedValue::U64(42));
}

#[test]
fn insert_into_the_embedded_engine_reports_the_assigned_key() {
    let mut db = DbSqlite::new(());
    let mut sink = Sink::new();
    assert_eq!(db.insert(Ok(ExecSummary { last_insert_id: Some(42), affected_rows: 1 }), &mut sink), 0);
    assert_eq!(db.get_last_insert_id(), 42);
    assert_eq!(sink.len(), 1);
    assert_eq!(sink.get(0).unwrap().name, "msg_db_result");
    assert_eq!(sink.get(0).unwrap().value, TypedValue::U64(42));
}

#[test]
fn insert_reports_a_large_key_whole() {
    for id in [0x0000_0005_0000_002a_u64, u32::MAX as u64, u32::MAX as u64 + 1, u64::MAX] {
        let mut db = DbMysql::new(());
        let mut sink = Sink::new();
        let done = ExecSummary { last_insert_id: Some(id), affected_rows: 1 };
        assert_eq!(db.insert(Ok(done), &mut sink), 0);
        assert_eq!(db.get_last_insert_id(), id);
        assert_eq!(sink.len(), 1);
        assert_eq!(sink.get(0).unwrap().value, TypedValue::U64(id));
        let mut lite = DbSqlite::new(());
        let mut other = Sink::new();
        let done = ExecSummary { last_insert_id: Some(id), affected_rows: 1 };
        assert_eq!(lite.insert(Ok(done), &mut other), 0);
        assert_eq!(lite.get_last_insert_id(), id);
        assert_eq!(other.get(0).unwrap().value, TypedValue::U64(id));
    }
}

#[test]
fn insert_without_a_new_key_reports_the_last_one() {
    let mut db = DbMysql::new(());
    let mut sink = Sink::new();
    db.last_insert_id = 17;
    assert_eq!(db.insert(Ok(ExecSummary { last_insert_id: None, affected_rows: 0 }), &mut sink), 0);
    assert_eq!(db.get_last_insert_id(), 17);
    assert_eq!(sink.get(0).unwrap().value, TypedValue::U64(17));
}

#[test]
fn insert_that_fails_appends_nothing() {
    let mut db = DbMysql::new(());
    let mut sink = Sink::new();
    assert_eq!(db.insert(Err(server_error(1062, "Duplicate entry")), &mut sink), 1062);
    assert_eq!(sink.len(), 0);
    assert_eq!(db.get_last_insert_id(), 0);
    assert_eq!(db.get_error_str(), Some("Duplicate entry".to_string()));
}

#[test]
fn fail_records_the_error() {
    let mut db = DbMysql::new(());
    assert_eq!(db.fail(DbError::NativeCoded { code: 7, message: "seven".to_string() }), 7);
    assert_eq!(db.get_error_code(), 7);
    assert_eq!(db.fail(DbError::Uncoded("plain".to_string())), -1);
    assert_eq!(db.get_error_str(), Some("plain".to_string()));
    assert_eq!(db.fail(DbError::Io("gone".to_string())), -1);
    assert_eq!(db.get_error_str(), Some("gone".to_string()));
    let mut lite = DbSqlite::new(());
    assert_eq!(lite.fail(DbError::NativeCoded { code: 19, message: "constraint".to_string() }), 19);
    assert_eq!(lite.get_error_code(), 19);
}

#[test]
fn error_tells_its_code_and_text() {
    let coded = DbError::NativeCoded { code: 1205, message: "Lock wait timeout".to_string() };
    assert_eq!(coded.error_code(), 1205);
    assert_eq!(coded.message(), "Lock wait timeout");
    assert!(!coded.is_io());
    let io = DbError::Io("reset by peer".to_string());
    assert_eq!(io.error_code(), -1);
    assert_eq!(io.message(), "reset by peer");
    assert!(io.is_io());
    let plain = DbError::Uncoded("bad value".to_string());
    assert_eq!(plain.error_code(), -1);
    assert_eq!(plain.message(), "bad value");
    assert!(!plain.is_io());
}

#[test]
fn transactions_are_plain_commands() {
    let db = DbMysql::new(());
    assert_eq!(db.begin_transaction(), "START TRANSACTION");
    assert_eq!(db.commit_transaction(), "COMMIT");
    assert_eq!(db.rollback_transaction(), "ROLLBACK");
    let lite = DbSqlite::new(());
    assert_eq!(lite.begin_transaction(), "START TRANSACTION");
    assert_eq!(lite.commit_transaction(), "COMMIT");
    assert_eq!(lite.rollback_transaction(), "ROLLBACK");
}
