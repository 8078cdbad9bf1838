//! The uniform contract of a connection: what every family of backends
//! does with the answers of its driver.

use crate::error::status_of;
use crate::error::DbError;
use crate::marshal::generated_key;
use crate::marshal::key_or;
use crate::marshal::rows_entries;
use crate::marshal::ExecSummary;
use crate::marshal::ResultSet;
use crate::schema::Schema;
use crate::sink::Sink;
use vstd::prelude::*;

verus! {

/// What the accessors of a connection show.
pub struct Status {
    pub last_insert_id: u64,
    pub affected_rows: u64,
    pub error: Option<DbError>,
    pub is_connect: bool,
}

impl Status {
    /// The status after a read query that returned `rs`: the counters are
    /// those of the result set, without a last inserted key it is 0, and
    /// the error is cleared.
    pub open spec fn selected(self, rs: ResultSet) -> Status {
        Status {
            last_insert_id: key_or(rs.last_insert_id, 0),
            affected_rows: rs.affected_rows,
            error: None,
            ..self
        }
    }

    /// The status after a command that reported `done`: the count of
    /// affected rows is that of the summary, the last inserted key too
    /// where the summary has one, and the error is cleared.
    pub open spec fn executed(self, done: ExecSummary) -> Status {
        Status {
            last_insert_id: key_or(done.last_insert_id, self.last_insert_id),
            affected_rows: done.affected_rows,
            error: None,
            ..self
        }
    }

    /// The status after an operation that failed with `error`: the error
    /// is recorded, and the counters stay.
    pub open spec fn failed(self, error: DbError) -> Status {
        Status { error: Some(error), ..self }
    }
}

/// The operations that a connection of every family offers, each with the
/// same contract.
pub trait DbTrait {
    /// What the accessors of the connection show.
    spec fn status(&self) -> Status;

    /// Records a native error: it becomes the error of the connection, and
    /// its status is returned. The counters stay.
    fn fail(&mut self, error: DbError) -> (code: i32)
        ensures
            code == error.code(),
            final(self).status() == old(self).status().failed(error),
    ;

    /// Takes the outcome of a read query. The rows of a result set go into
    /// the sink, column by column, as far as the schema knows the columns
    /// and the rule of coercion gives values. A native error is recorded,
    /// nothing goes into the sink, and the status is that of the error.
    fn select(
        &mut self,
        outcome: Result<ResultSet, DbError>,
        schema: &Schema,
        sink: &mut Sink,
    ) -> (code: i32)
        ensures
            outcome matches Ok(rs) ==> final(self).status() == old(self).status().selected(rs)
                && final(sink)@ == old(sink)@ + rows_entries(
                schema@,
                rs.columns@,
                rs.rows@,
                rs.rows@.len(),
            ),
            outcome matches Err(error) ==> final(sink)@ == old(sink)@ && final(self).status() == old(
                self,
            ).status().failed(error),
            code == status_of(final(self).status().error),
    ;

    /// Takes the outcome of a command that returns no rows. A native error
    /// is recorded, and the status is that of the error.
    fn execute(&mut self, outcome: Result<ExecSummary, DbError>) -> (code: i32)
        ensures
            outcome matches Ok(done) ==> final(self).status() == old(self).status().executed(done),
            outcome matches Err(error) ==> final(self).status() == old(self).status().failed(error),
            code == status_of(final(self).status().error),
    ;

    /// Takes the outcome of an insertion: as `execute` does, and on success
    /// one pair more goes into the sink: the last inserted key of the
    /// connection, whole, under the name `DB_RESULT_PROTO`.
    fn insert(&mut self, outcome: Result<ExecSummary, DbError>, sink: &mut Sink) -> (code:
        i32)
        ensures
            outcome matches Ok(done) ==> final(self).status() == old(self).status().executed(done)
                && final(sink)@ == old(sink)@.push(
                generated_key(final(self).status().last_insert_id),
            ),
            outcome matches Err(error) ==> final(sink)@ == old(sink)@ && final(self).status() == old(
                self,
            ).status().failed(error),
            code == status_of(final(self).status().error),
    ;

    /// The command that opens a transaction; it is run as any other command.
    fn begin_transaction(&self) -> (command: &'static str)
        ensures
            command@ == "START TRANSACTION"@,
    ;

    /// The command that commits the open transaction.
    fn commit_transaction(&self) -> (command: &'static str)
        ensures
            command@ == "COMMIT"@,
    ;

    /// The command that rolls the open transaction back.
    fn rollback_transaction(&self) -> (command: &'static str)
        ensures
            command@ == "ROLLBACK"@,
    ;

    /// The key that the backend assigned last.
    fn get_last_insert_id(&self) -> (id: u64)
        ensures
            id == self.status().last_insert_id,
    ;

    /// How many rows the last command affected.
    fn get_affected_rows(&self) -> (n: u64)
        ensures
            n == self.status().affected_rows,
    ;

    /// The character set; no backend reports one, and it is always 0.
    fn get_character_set(&self) -> (c: u8)
        ensures
            c == 0,
    ;

    /// Whether the connection counts as connected.
    fn is_connected(&self) -> (r: bool)
        ensures
            r == self.status().is_connect,
    ;

    /// The status of the last operation: the code of its error, `UNCODED`
    /// for an error without a code, `SUCCESS` where there was none.
    fn get_error_code(&self) -> (c: i32)
        ensures
            c == status_of(self.status().error),
    ;

    /// The text of the error of the last operation, if it had one.
    fn get_error_str(&self) -> (m: Option<String>)
        ensures
            m is Some <==> self.status().error is Some,
            m is Some ==> m->0@ == self.status().error->0.text(),
    ;
}

} // verus!
