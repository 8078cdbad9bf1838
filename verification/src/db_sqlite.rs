//! The connection to the embedded relational engine: what the answers of
//! the driver do to its state.

use crate::clock::now_nanos;
use crate::db_trait::DbTrait;
use crate::db_trait::Status;
use crate::error::ConnectivityError;
use crate::error::DbError;
use crate::error::SUCCESS;
use crate::marshal::marshal_rows;
use crate::marshal::ExecSummary;
use crate::marshal::ResultSet;
use crate::marshal::DB_RESULT_PROTO;
use crate::schema::Schema;
use crate::sink::Sink;
use crate::value::TypedValue;
use vstd::prelude::*;

verus! {

/// One connection to the embedded engine. `conn` is the handle of the
/// driver; the library carries it and never looks into it.
pub struct DbSqlite<C> {
    pub conn: C,
    pub last_insert_id: u64,
    pub affected_rows: u64,
    pub error: Option<DbError>,
    pub is_connect: bool,
    pub last_use_time: i128,
}

impl<C> DbSqlite<C> {
    /// A connection around a fresh handle: connected, without an error, its
    /// counters at zero.
    pub fn new(conn: C) -> (db: DbSqlite<C>)
        ensures
            db.conn == conn,
            db.last_insert_id == 0,
            db.affected_rows == 0,
            db.error is None,
            db.is_connect,
    {
        DbSqlite {
            conn,
            last_insert_id: 0,
            affected_rows: 0,
            error: None,
            is_connect: true,
            last_use_time: now_nanos(),
        }
    }

    /// The embedded engine has no transport that could fail: the connection
    /// is always fit for use, and nothing changes.
    pub fn check_connect(&mut self) -> (r: Result<(), ConnectivityError>)
        ensures
            r is Ok,
            *final(self) == *old(self),
    {
        Ok(())
    }
}

impl<C> DbTrait for DbSqlite<C> {
    open spec fn status(&self) -> Status {
        Status {
            last_insert_id: self.last_insert_id,
            affected_rows: self.affected_rows,
            error: self.error,
            is_connect: self.is_connect,
        }
    }

    fn fail(&mut self, error: DbError) -> (code: i32)
        ensures
            final(self).conn == old(self).conn,
            final(self).last_use_time == old(self).last_use_time,
    {
        let code: i32 = error.error_code();
        self.error = Some(error);
        code
    }

    fn select(
        &mut self,
        outcome: Result<ResultSet, DbError>,
        schema: &Schema,
        sink: &mut Sink,
    ) -> (code: i32)
        ensures
            final(self).conn == old(self).conn,
            final(self).last_use_time == old(self).last_use_time,
    {
        match outcome {
            Ok(rs) => {
                self.last_insert_id = match rs.last_insert_id {
                    Some(id) => id,
                    None => 0,
                };
                self.affected_rows = rs.affected_rows;
                marshal_rows(schema, &rs.columns, &rs.rows, sink);
                self.error = None;
                SUCCESS
            },
            Err(error) => self.fail(error),
        }
    }

    fn execute(&mut self, outcome: Result<ExecSummary, DbError>) -> (code: i32)
        ensures
            final(self).conn == old(self).conn,
            final(self).last_use_time == old(self).last_use_time,
    {
        match outcome {
            Ok(done) => {
                match done.last_insert_id {
                    Some(id) => {
                        self.last_insert_id = id;
                    },
                    None => {},
                }
                self.affected_rows = done.affected_rows;
                self.error = None;
                SUCCESS
            },
            Err(error) => self.fail(error),
        }
    }

    fn insert(&mut self, outcome: Result<ExecSummary, DbError>, sink: &mut Sink) -> (code: i32)
        ensures
            final(self).conn == old(self).conn,
            final(self).last_use_time == old(self).last_use_time,
    {
        match outcome {
            Ok(done) => {
                match done.last_insert_id {
                    Some(id) => {
                        self.last_insert_id = id;
                    },
                    None => {},
                }
                self.affected_rows = done.affected_rows;
                sink.put(DB_RESULT_PROTO.to_owned(), TypedValue::U64(self.last_insert_id));
                self.error = None;
                SUCCESS
            },
            Err(error) => self.fail(error),
        }
    }

    fn begin_transaction(&self) -> (command: &'static str) {
        "START TRANSACTION"
    }

    fn commit_transaction(&self) -> (command: &'static str) {
        "COMMIT"
    }

    fn rollback_transaction(&self) -> (command: &'static str) {
        "ROLLBACK"
    }

    fn get_last_insert_id(&self) -> (id: u64) {
        self.last_insert_id
    }

    fn get_affected_rows(&self) -> (n: u64) {
        self.affected_rows
    }

    fn get_character_set(&self) -> (c: u8) {
        0u8
    }

    fn is_connected(&self) -> (r: bool) {
        self.is_connect
    }

    fn get_error_code(&self) -> (c: i32) {
        match &self.error {
            Some(err) => err.error_code(),
            None => SUCCESS,
        }
    }

    fn get_error_str(&self) -> (m: Option<String>) {
        match &self.error {
            Some(err) => Some(err.message().clone()),
            None => None,
        }
    }
}

} // verus!
