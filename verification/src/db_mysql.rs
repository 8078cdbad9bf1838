//! The connection to the relational engine that is reached over the
//! network: what the answers of the driver do to its state.

use crate::address::parsed_scheme;
use crate::address::url_family;
use crate::address::url_scheme;
use crate::address::Family;
use crate::clock::now_nanos;
use crate::db_trait::DbTrait;
use crate::db_trait::Status;
use crate::error::ConnectivityError;
use crate::error::DbError;
use crate::error::SUCCESS;
use crate::marshal::marshal_rows;
use crate::marshal::ExecSummary;
use crate::marshal::ResultSet;
use crate::marshal::DB_RESULT_PROTO;
use crate::schema::Schema;
use crate::sink::Sink;
use crate::text::str_eq;
use crate::value::TypedValue;
use vstd::prelude::*;

verus! {

/// `mysql::Opts`, the options of a connection as the driver holds them. The
/// library carries them and never looks into them.
#[verifier::external_type_specification]
#[verifier::external_body]
pub struct ExMysqlOpts(mysql::Opts);

/// Whether the driver, as it is built, reads the options of a connection
/// from the text `url`.
pub uninterp spec fn mysql_accepts(url: Seq<char>) -> bool;

/// `mysql::Opts::from_url`: the options that the driver reads from a URL,
/// `None` where it rejects the URL. The driver reads the text and nothing
/// else.
#[verifier::external_body]
pub(crate) fn mysql_opts(url: &str) -> (r: Option<mysql::Opts>)
    ensures
        r is Some <==> mysql_accepts(url@),
{
    mysql::Opts::from_url(url).ok()
}

/// The options for a URL whose scheme was read as `scheme` and from which
/// the driver read `opts`: those of the driver where the scheme is `mysql`,
/// none under any other scheme and for what is no URL.
pub open spec fn options_under(
    scheme: Option<String>,
    opts: Option<mysql::Opts>,
) -> Option<mysql::Opts> {
    match scheme {
        Some(s) => if s@ == "mysql"@ {
            opts
        } else {
            None
        },
        None => None,
    }
}

/// Picks the options of a connection to a URL from what the parser of URLs
/// and the driver made of it: `scheme` is the scheme that the parser read,
/// `None` for what is no URL, and `opts` are the options that the driver
/// read, `None` where it rejects the URL. The options are those of the
/// driver where the scheme is `mysql`, and none under any other scheme.
pub fn opts_for_scheme(
    scheme: Option<String>,
    opts: Option<mysql::Opts>,
) -> (r: Option<mysql::Opts>)
    ensures
        r == options_under(scheme, opts),
{
    match scheme {
        Some(s) => {
            if str_eq(s.as_str(), "mysql") {
                opts
            } else {
                None
            }
        },
        None => None,
    }
}

/// What is to be done after a probe of the connection.
#[derive(Clone, Copy, Debug, PartialEq, Eq, Structural)]
pub enum Liveness {
    /// The connection answered: the operation goes on.
    Ready,
    /// The connection is dead: it is to be reset, once.
    Reset,
}

/// One connection to the networked engine. `conn` is the handle of the
/// driver; the library carries it and never looks into it.
pub struct DbMysql<C> {
    pub conn: C,
    pub last_insert_id: u64,
    pub affected_rows: u64,
    pub error: Option<DbError>,
    pub is_connect: bool,
    pub last_use_time: i128,
}

impl<C> DbMysql<C> {
    /// A connection around a fresh handle: connected, without an error, its
    /// counters at zero.
    pub fn new(conn: C) -> (db: DbMysql<C>)
        ensures
            db.conn == conn,
            db.last_insert_id == 0,
            db.affected_rows == 0,
            db.error is None,
            db.is_connect,
    {
        DbMysql {
            conn,
            last_insert_id: 0,
            affected_rows: 0,
            error: None,
            is_connect: true,
            last_use_time: now_nanos(),
        }
    }

    /// The connection with its flag of connectivity set to `up`.
    pub open spec fn connected(self, up: bool) -> DbMysql<C> {
        DbMysql { is_connect: up, ..self }
    }

    /// Whether an answer of the driver is a failure of the transport: an
    /// error of the class `Io`. An answer that is no error is none.
    pub fn is_io_error<T>(value: &Result<T, DbError>) -> (r: bool)
        ensures
            r <==> (*value matches Err(e) && e is Io),
    {
        match value {
            Err(error) => error.is_io(),
            Ok(_) => false,
        }
    }

    /// Takes the answer to a ping. A connection that answered is left as it
    /// is; one that did not is marked as disconnected and is to be reset.
    pub fn check_connect(&mut self, alive: bool) -> (next: Liveness)
        ensures
            alive ==> next == Liveness::Ready && *final(self) == *old(self),
            !alive ==> next == Liveness::Reset && *final(self) == old(self).connected(false),
    {
        if alive {
            Liveness::Ready
        } else {
            self.is_connect = false;
            Liveness::Reset
        }
    }

    /// Takes the outcome of the reset that followed a failed ping. A reset
    /// that succeeded restores the connection; one that failed leaves it
    /// disconnected, and the operation that asked for the probe fails.
    pub fn after_reset(&mut self, restored: bool) -> (r: Result<(), ConnectivityError>)
        ensures
            r is Ok <==> restored,
            *final(self) == old(self).connected(restored),
    {
        self.is_connect = restored;
        if restored {
            Ok(())
        } else {
            Err(ConnectivityError {  })
        }
    }

    /// The options of a connection to the URL `url`: what `opts_for_scheme`
    /// picks from the scheme that the parser of URLs reads in `url` and the
    /// options that the driver reads in it. There are options exactly where
    /// the text is a URL, its scheme is `mysql`, and the driver accepts it.
    pub fn from_url_basic(url: &str) -> (r: Option<mysql::Opts>)
        ensures
            r is Some <==> parsed_scheme(url@) == Some("mysql"@) && mysql_accepts(url@),
            r is Some ==> url_family(url@) == Some(Family::MySql),
    {
        let scheme: Option<String> = url_scheme(url);
        let opts: Option<mysql::Opts> = mysql_opts(url);
        opts_for_scheme(scheme, opts)
    }
}

impl<C> DbTrait for DbMysql<C> {
    open spec fn status(&self) -> Status {
        Status {
            last_insert_id: self.last_insert_id,
            affected_rows: self.affected_rows,
            error: self.error,
            is_connect: self.is_connect,
        }
    }

    fn fail(&mut self, error: DbError) -> (code: i32)
        ensures
            final(self).conn == old(self).conn,
            final(self).last_use_time == old(self).last_use_time,
    {
        let code: i32 = error.error_code();
        self.error = Some(error);
        code
    }

    fn select(
        &mut self,
        outcome: Result<ResultSet, DbError>,
        schema: &Schema,
        sink: &mut Sink,
    ) -> (code: i32)
        ensures
            final(self).conn == old(self).conn,
            final(self).last_use_time == old(self).last_use_time,
    {
        match outcome {
            Ok(rs) => {
                self.last_insert_id = match rs.last_insert_id {
                    Some(id) => id,
                    None => 0,
                };
                self.affected_rows = rs.affected_rows;
                marshal_rows(schema, &rs.columns, &rs.rows, sink);
                self.error = None;
                SUCCESS
            },
            Err(error) => self.fail(error),
        }
    }

    fn execute(&mut self, outcome: Result<ExecSummary, DbError>) -> (code: i32)
        ensures
            final(self).conn == old(self).conn,
            final(self).last_use_time == old(self).last_use_time,
    {
        match outcome {
            Ok(done) => {
                match done.last_insert_id {
                    Some(id) => {
                        self.last_insert_id = id;
                    },
                    None => {},
                }
                self.affected_rows = done.affected_rows;
                self.error = None;
                SUCCESS
            },
            Err(error) => self.fail(error),
        }
    }

    fn insert(&mut self, outcome: Result<ExecSummary, DbError>, sink: &mut Sink) -> (code: i32)
        ensures
            final(self).conn == old(self).conn,
            final(self).last_use_time == old(self).last_use_time,
    {
        match outcome {
            Ok(done) => {
                match done.last_insert_id {
                    Some(id) => {
                        self.last_insert_id = id;
                    },
                    None => {},
                }
                self.affected_rows = done.affected_rows;
                sink.put(DB_RESULT_PROTO.to_owned(), TypedValue::U64(self.last_insert_id));
                self.error = None;
                SUCCESS
            },
            Err(error) => self.fail(error),
        }
    }

    fn begin_transaction(&self) -> (command: &'static str) {
        "START TRANSACTION"
    }

    fn commit_transaction(&self) -> (command: &'static str) {
        "COMMIT"
    }

    fn rollback_transaction(&self) -> (command: &'static str) {
        "ROLLBACK"
    }

    fn get_last_insert_id(&self) -> (id: u64) {
        self.last_insert_id
    }

    fn get_affected_rows(&self) -> (n: u64) {
        self.affected_rows
    }

    fn get_character_set(&self) -> (c: u8) {
        0u8
    }

    fn is_connected(&self) -> (r: bool) {
        self.is_connect
    }

    fn get_error_code(&self) -> (c: i32) {
        match &self.error {
            Some(err) => err.error_code(),
            None => SUCCESS,
        }
    }

    fn get_error_str(&self) -> (m: Option<String>) {
        match &self.error {
            Some(err) => Some(err.message().clone()),
            None => None,
        }
    }
}

} // verus!
