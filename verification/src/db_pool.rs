//! The registry of connection pools: named collections of idle
//! connections, one family of backend to a pool.

use crate::address::family_of_url;
use crate::address::url_family;
use crate::address::Family;
use crate::db_mysql::DbMysql;
use crate::db_sqlite::DbSqlite;
use crate::db_trait::DbTrait;
use crate::db_trait::Status;
use crate::error::status_of;
use crate::text::str_eq;
use vstd::prelude::*;

verus! {

/// A connection of one of the families.
pub enum DbStruct<M, S> {
    MySql(DbMysql<M>),
    Sqlite(DbSqlite<S>),
}

impl<M, S> DbStruct<M, S> {
    /// The family of the connection.
    pub open spec fn family(self) -> Family {
        match self {
            DbStruct::MySql(_) => Family::MySql,
            DbStruct::Sqlite(_) => Family::Sqlite,
        }
    }

    /// The family of the connection.
    pub fn get_family(&self) -> (f: Family)
        ensures
            f == self.family(),
    {
        match self {
            DbStruct::MySql(_) => Family::MySql,
            DbStruct::Sqlite(_) => Family::Sqlite,
        }
    }

    /// What the accessors of the connection show.
    pub open spec fn status(self) -> Status {
        match self {
            DbStruct::MySql(db) => db.status(),
            DbStruct::Sqlite(db) => db.status(),
        }
    }

    /// The key that the backend assigned last.
    pub fn get_last_insert_id(&self) -> (id: u64)
        ensures
            id == self.status().last_insert_id,
    {
        match self {
            DbStruct::MySql(db) => db.get_last_insert_id(),
            DbStruct::Sqlite(db) => db.get_last_insert_id(),
        }
    }

    /// How many rows the last command affected.
    pub fn get_affected_rows(&self) -> (n: u64)
        ensures
            n == self.status().affected_rows,
    {
        match self {
            DbStruct::MySql(db) => db.get_affected_rows(),
            DbStruct::Sqlite(db) => db.get_affected_rows(),
        }
    }

    /// Whether the connection counts as connected.
    pub fn is_connected(&self) -> (r: bool)
        ensures
            r == self.status().is_connect,
    {
        match self {
            DbStruct::MySql(db) => db.is_connected(),
            DbStruct::Sqlite(db) => db.is_connected(),
        }
    }

    /// The status of the last operation of the connection.
    pub fn get_error_code(&self) -> (c: i32)
        ensures
            c == status_of(self.status().error),
    {
        match self {
            DbStruct::MySql(db) => db.get_error_code(),
            DbStruct::Sqlite(db) => db.get_error_code(),
        }
    }

    /// The text of the error of the last operation, if it had one.
    pub fn get_error_str(&self) -> (m: Option<String>)
        ensures
            m is Some <==> self.status().error is Some,
            m is Some ==> m->0@ == self.status().error->0.text(),
    {
        match self {
            DbStruct::MySql(db) => db.get_error_str(),
            DbStruct::Sqlite(db) => db.get_error_str(),
        }
    }
}

/// The idle connections of a pool, all of one family.
pub enum Idle<M, S> {
    MySql(Vec<DbMysql<M>>),
    Sqlite(Vec<DbSqlite<S>>),
}

/// What an `Idle` holds: the idle connections, the one released last at the
/// end.
pub enum IdleModel<M, S> {
    MySql(Seq<DbMysql<M>>),
    Sqlite(Seq<DbSqlite<S>>),
}

impl<M, S> IdleModel<M, S> {
    /// The family of the connections.
    pub open spec fn family(self) -> Family {
        match self {
            IdleModel::MySql(_) => Family::MySql,
            IdleModel::Sqlite(_) => Family::Sqlite,
        }
    }

    /// How many connections are idle.
    pub open spec fn len(self) -> nat {
        match self {
            IdleModel::MySql(s) => s.len(),
            IdleModel::Sqlite(s) => s.len(),
        }
    }

    /// No idle connection, for a pool of the family `family`.
    pub open spec fn none(family: Family) -> IdleModel<M, S> {
        match family {
            Family::MySql => IdleModel::MySql(Seq::empty()),
            Family::Sqlite => IdleModel::Sqlite(Seq::empty()),
        }
    }

    /// The connection that was released last. Meant for `self.len() > 0`.
    pub open spec fn last(self) -> DbStruct<M, S> {
        match self {
            IdleModel::MySql(s) => DbStruct::MySql(s.last()),
            IdleModel::Sqlite(s) => DbStruct::Sqlite(s.last()),
        }
    }

    /// The idle connections without the one that was released last.
    pub open spec fn drop_last(self) -> IdleModel<M, S> {
        match self {
            IdleModel::MySql(s) => IdleModel::MySql(s.drop_last()),
            IdleModel::Sqlite(s) => IdleModel::Sqlite(s.drop_last()),
        }
    }

    /// The idle connections and `conn` behind them, where `conn` is of
    /// their family; unchanged where it is not.
    pub open spec fn push(self, conn: DbStruct<M, S>) -> IdleModel<M, S> {
        match (self, conn) {
            (IdleModel::MySql(s), DbStruct::MySql(c)) => IdleModel::MySql(s.push(c)),
            (IdleModel::Sqlite(s), DbStruct::Sqlite(c)) => IdleModel::Sqlite(s.push(c)),
            _ => self,
        }
    }
}

impl<M, S> View for Idle<M, S> {
    type V = IdleModel<M, S>;

    open spec fn view(&self) -> IdleModel<M, S> {
        match *self {
            Idle::MySql(v) => IdleModel::MySql(v@),
            Idle::Sqlite(v) => IdleModel::Sqlite(v@),
        }
    }
}

/// One pool: its name, the URL to which its connections are made, and its
/// idle connections.
pub struct Pool<M, S> {
    pub name: String,
    pub url: String,
    pub idle: Idle<M, S>,
}

/// What a `Pool` holds.
pub struct PoolModel<M, S> {
    pub name: Seq<char>,
    pub url: Seq<char>,
    pub idle: IdleModel<M, S>,
}

impl<M, S> View for Pool<M, S> {
    type V = PoolModel<M, S>;

    open spec fn view(&self) -> PoolModel<M, S> {
        PoolModel { name: self.name@, url: self.url@, idle: self.idle@ }
    }
}

/// What `acquire` hands out.
pub enum Acquired<M, S> {
    /// An idle connection of the pool.
    Idle(DbStruct<M, S>),
    /// The pool has no idle connection: a new one is to be made, of the
    /// family `family`, to the URL `url`.
    Fresh { family: Family, url: String },
    /// No pool bears the name.
    Unknown,
}

/// What an `Acquired` says.
pub enum Grant<M, S> {
    Idle(DbStruct<M, S>),
    Fresh { family: Family, url: Seq<char> },
    Unknown,
}

impl<M, S> View for Acquired<M, S> {
    type V = Grant<M, S>;

    open spec fn view(&self) -> Grant<M, S> {
        match *self {
            Acquired::Idle(c) => Grant::Idle(c),
            Acquired::Fresh { family, url } => Grant::Fresh { family, url: url@ },
            Acquired::Unknown => Grant::Unknown,
        }
    }
}

/// Why a pool could not be registered.
#[derive(Clone, Copy, Debug, PartialEq, Eq, Structural)]
pub enum RegisterError {
    /// The URL is malformed, or its scheme names no family of backends.
    UnknownScheme,
    /// A pool of that name is registered already.
    NameTaken,
}

/// The place of the first pool named `name` among the pools from place
/// `from` on.
pub open spec fn position_from<M, S>(
    pools: Seq<PoolModel<M, S>>,
    name: Seq<char>,
    from: int,
) -> Option<int>
    decreases pools.len() - from,
{
    if from < 0 || from >= pools.len() {
        None
    } else if pools[from].name == name {
        Some(from)
    } else {
        position_from(pools, name, from + 1)
    }
}

/// The place of the pool named `name`.
pub open spec fn position<M, S>(pools: Seq<PoolModel<M, S>>, name: Seq<char>) -> Option<int> {
    position_from(pools, name, 0)
}

/// The pools after the registration of a pool `name` for the URL `url`.
pub open spec fn registered<M, S>(
    pools: Seq<PoolModel<M, S>>,
    name: Seq<char>,
    url: Seq<char>,
) -> Seq<PoolModel<M, S>> {
    match url_family(url) {
        Some(family) => if position(pools, name) is None {
            pools.push(PoolModel { name, url, idle: IdleModel::none(family) })
        } else {
            pools
        },
        None => pools,
    }
}

/// The answer to the registration of a pool `name` for the URL `url`.
pub open spec fn registration<M, S>(
    pools: Seq<PoolModel<M, S>>,
    name: Seq<char>,
    url: Seq<char>,
) -> Result<Family, RegisterError> {
    match url_family(url) {
        None => Err(RegisterError::UnknownScheme),
        Some(family) => if position(pools, name) is Some {
            Err(RegisterError::NameTaken)
        } else {
            Ok(family)
        },
    }
}

/// Whether the pool `name` takes the connection `conn` back: the pool is
/// registered and is of the family of the connection.
pub open spec fn accepts<M, S>(
    pools: Seq<PoolModel<M, S>>,
    name: Seq<char>,
    conn: DbStruct<M, S>,
) -> bool {
    position(pools, name) matches Some(i) && pools[i].idle.family() == conn.family()
}

/// The pools after the release of `conn` to the pool `name`.
pub open spec fn released<M, S>(
    pools: Seq<PoolModel<M, S>>,
    name: Seq<char>,
    conn: DbStruct<M, S>,
) -> Seq<PoolModel<M, S>> {
    if accepts(pools, name, conn) {
        let i = position(pools, name)->0;
        pools.update(i, PoolModel { idle: pools[i].idle.push(conn), ..pools[i] })
    } else {
        pools
    }
}

/// What the pool `name` grants.
pub open spec fn granted<M, S>(pools: Seq<PoolModel<M, S>>, name: Seq<char>) -> Grant<M, S> {
    match position(pools, name) {
        None => Grant::Unknown,
        Some(i) => if pools[i].idle.len() == 0 {
            Grant::Fresh { family: pools[i].idle.family(), url: pools[i].url }
        } else {
            Grant::Idle(pools[i].idle.last())
        },
    }
}

/// The pools after an acquisition from the pool `name`.
pub open spec fn acquired<M, S>(pools: Seq<PoolModel<M, S>>, name: Seq<char>) -> Seq<
    PoolModel<M, S>,
> {
    match position(pools, name) {
        None => pools,
        Some(i) => if pools[i].idle.len() == 0 {
            pools
        } else {
            pools.update(i, PoolModel { idle: pools[i].idle.drop_last(), ..pools[i] })
        },
    }
}

/// No two of the pools bear the same name.
pub open spec fn distinct_names<M, S>(pools: Seq<PoolModel<M, S>>) -> bool {
    forall|i: int, j: int|
        0 <= i < j < pools.len() ==> (#[trigger] pools[i]).name != (#[trigger] pools[j]).name
}

/// The registry of pools.
pub struct DbPool<M, S> {
    pools: Vec<Pool<M, S>>,
}

impl<M, S> View for DbPool<M, S> {
    type V = Seq<PoolModel<M, S>>;

    closed spec fn view(&self) -> Seq<PoolModel<M, S>> {
        Seq::new(self.pools@.len(), |i: int| self.pools@[i]@)
    }
}

impl<M, S> DbPool<M, S> {
    /// The registry is well formed: every name names one pool.
    pub open spec fn wf(&self) -> bool {
        distinct_names(self@)
    }

    /// A registry without pools.
    pub fn new() -> (p: DbPool<M, S>)
        ensures
            p@ == Seq::<PoolModel<M, S>>::empty(),
            p.wf(),
    {
        let p = DbPool { pools: Vec::new() };
        assert(p@ =~= Seq::<PoolModel<M, S>>::empty());
        p
    }

    /// The place of the pool named `name`.
    fn find(&self, name: &str) -> (r: Option<usize>)
        ensures
            r is Some <==> position(self@, name@) is Some,
            r is Some ==> r->0 == position(self@, name@)->0 && r->0 < self.pools@.len(),
    {
        let n: usize = self.pools.len();
        let mut i: usize = 0;
        while i < n
            invariant
                i <= n,
                n == self.pools@.len(),
                n == self@.len(),
                position(self@, name@) == position_from(self@, name@, i as int),
            decreases n - i,
        {
            assert(self@[i as int] == self.pools@[i as int]@);
            if str_eq(self.pools[i].name.as_str(), name) {
                return Some(i);
            }
            i = i + 1;
        }
        None
    }

    /// Registers a pool named `name` whose connections are made to `url`.
    /// The scheme of the URL names the family of the pool. Fails, and
    /// changes nothing, where the URL is malformed or its scheme names no
    /// family, and where the name is taken.
    pub fn register(&mut self, name: String, url: String) -> (r: Result<Family, RegisterError>)
        ensures
            final(self)@ == registered(old(self)@, name@, url@),
            r == registration(old(self)@, name@, url@),
            old(self).wf() ==> final(self).wf(),
    {
        proof {
            if self.wf() {
                lemma_registered_names_distinct(self@, name@, url@);
            }
        }
        match family_of_url(url.as_str()) {
            None => Err(RegisterError::UnknownScheme),
            Some(family) => {
                if self.find(name.as_str()).is_some() {
                    Err(RegisterError::NameTaken)
                } else {
                    let idle: Idle<M, S> = match family {
                        Family::MySql => Idle::MySql(Vec::new()),
                        Family::Sqlite => Idle::Sqlite(Vec::new()),
                    };
                    self.pools.push(Pool { name, url, idle });
                    assert(self@ =~= registered(old(self)@, name@, url@));
                    Ok(family)
                }
            },
        }
    }

    /// Takes a connection out of the pool `name`: the idle connection that
    /// was released last, or, where none is idle, the order to make a new
    /// one. The call never waits for a connection to come back.
    pub fn acquire(&mut self, name: &str) -> (r: Acquired<M, S>)
        ensures
            r@ == granted(old(self)@, name@),
            final(self)@ == acquired(old(self)@, name@),
            old(self).wf() ==> final(self).wf(),
    {
        proof {
            if self.wf() {
                lemma_acquired_names_distinct(self@, name@);
            }
        }
        match self.find(name) {
            None => Acquired::Unknown,
            Some(i) => {
                assert(self@[i as int] == self.pools@[i as int]@);
                let found: Option<DbStruct<M, S>> = match &mut self.pools[i].idle {
                    Idle::MySql(v) => match v.pop() {
                        Some(c) => Some(DbStruct::MySql(c)),
                        None => None,
                    },
                    Idle::Sqlite(v) => match v.pop() {
                        Some(c) => Some(DbStruct::Sqlite(c)),
                        None => None,
                    },
                };
                match found {
                    Some(c) => {
                        assert(self@ =~= acquired(old(self)@, name@));
                        Acquired::Idle(c)
                    },
                    None => {
                        assert(self@ =~= old(self)@);
                        let family: Family = match &self.pools[i].idle {
                            Idle::MySql(_) => Family::MySql,
                            Idle::Sqlite(_) => Family::Sqlite,
                        };
                        Acquired::Fresh { family, url: self.pools[i].url.clone() }
                    },
                }
            },
        }
    }

    /// Gives a connection back to the pool `name`, whatever its state: it
    /// becomes the idle connection that was released last. Where no pool
    /// bears the name, or the pool is of another family, nothing changes
    /// and the connection comes back to the caller.
    pub fn release(&mut self, name: &str, conn: DbStruct<M, S>) -> (r: Result<(), DbStruct<M, S>>)
        ensures
            final(self)@ == released(old(self)@, name@, conn),
            old(self).wf() ==> final(self).wf(),
            accepts(old(self)@, name@, conn) ==> r is Ok,
            !accepts(old(self)@, name@, conn) ==> r == Err::<(), DbStruct<M, S>>(conn),
    {
        proof {
            if self.wf() {
                lemma_released_names_distinct(self@, name@, conn);
            }
        }
        match self.find(name) {
            None => Err(conn),
            Some(i) => {
                assert(self@[i as int] == self.pools@[i as int]@);
                let r: Result<(), DbStruct<M, S>> = match (&mut self.pools[i].idle, conn) {
                    (Idle::MySql(v), DbStruct::MySql(c)) => {
                        v.push(c);
                        Ok(())
                    },
                    (Idle::Sqlite(v), DbStruct::Sqlite(c)) => {
                        v.push(c);
                        Ok(())
                    },
                    (_, other) => Err(other),
                };
                assert(self@ =~= released(old(self)@, name@, conn));
                r
            },
        }
    }
}

/// Where `position_from` finds no place, no pool from `from` on bears the
/// name.
proof fn lemma_position_none<M, S>(pools: Seq<PoolModel<M, S>>, name: Seq<char>, from: int)
    requires
        0 <= from,
        position_from(pools, name, from) is None,
    ensures
        forall|i: int| from <= i < pools.len() ==> (#[trigger] pools[i]).name != name,
    decreases pools.len() - from,
{
    if from < pools.len() {
        lemma_position_none(pools, name, from + 1);
    }
}

/// The place of a name depends on the names of the pools alone.
proof fn lemma_position_by_names<M, S>(
    a: Seq<PoolModel<M, S>>,
    b: Seq<PoolModel<M, S>>,
    name: Seq<char>,
    from: int,
)
    requires
        a.len() == b.len(),
        forall|i: int| 0 <= i < a.len() ==> a[i].name == b[i].name,
    ensures
        position_from(a, name, from) == position_from(b, name, from),
    decreases a.len() - from,
{
    if 0 <= from < a.len() && a[from].name != name {
        lemma_position_by_names(a, b, name, from + 1);
    }
}

/// A place that `position_from` names is a place of the sequence, and the
/// pool there bears the name.
proof fn lemma_position_in_range<M, S>(pools: Seq<PoolModel<M, S>>, name: Seq<char>, from: int)
    ensures
        position_from(pools, name, from) matches Some(i) ==> from <= i < pools.len()
            && pools[i].name == name,
    decreases pools.len() - from,
{
    if 0 <= from < pools.len() && pools[from].name != name {
        lemma_position_in_range(pools, name, from + 1);
    }
}

/// A pool that is put behind pools of other names is found at its place.
proof fn lemma_position_of_pushed<M, S>(
    pools: Seq<PoolModel<M, S>>,
    pool: PoolModel<M, S>,
    from: int,
)
    requires
        0 <= from <= pools.len(),
        position_from(pools, pool.name, from) is None,
    ensures
        position_from(pools.push(pool), pool.name, from) == Some(pools.len() as int),
    decreases pools.len() - from,
{
    if from < pools.len() {
        lemma_position_of_pushed(pools, pool, from + 1);
    }
}

/// A connection that is released to a pool and acquired from it at once
/// comes back as it was, with its error and its counters, and the registry
/// is as it was before the release.
pub proof fn lemma_release_then_acquire<M, S>(
    pools: Seq<PoolModel<M, S>>,
    name: Seq<char>,
    conn: DbStruct<M, S>,
)
    requires
        accepts(pools, name, conn),
    ensures
        granted(released(pools, name, conn), name) == Grant::Idle(conn),
        acquired(released(pools, name, conn), name) == pools,
{
    let after = released(pools, name, conn);
    let i = position(pools, name)->0;
    lemma_position_in_range(pools, name, 0);
    lemma_position_by_names(pools, after, name, 0);
    match (pools[i].idle, conn) {
        (IdleModel::MySql(s), DbStruct::MySql(c)) => {
            assert(s.push(c).drop_last() =~= s);
        },
        (IdleModel::Sqlite(s), DbStruct::Sqlite(c)) => {
            assert(s.push(c).drop_last() =~= s);
        },
        _ => {},
    }
    assert(acquired(after, name) =~= pools);
}

/// A pool without an idle connection never makes the caller wait: it
/// grants a fresh connection, to be made to the URL of the pool, and the
/// registry stays as it is.
pub proof fn lemma_empty_pool_grants_fresh<M, S>(pools: Seq<PoolModel<M, S>>, name: Seq<char>)
    requires
        position(pools, name) is Some,
        pools[position(pools, name)->0].idle.len() == 0,
    ensures
        granted(pools, name) == (Grant::<M, S>::Fresh {
            family: pools[position(pools, name)->0].idle.family(),
            url: pools[position(pools, name)->0].url,
        }),
        acquired(pools, name) == pools,
{
}

/// A pool that was registered a moment ago grants a fresh connection of
/// the family that the scheme of its URL names, to be made to that URL.
pub proof fn lemma_registered_pool_grants_fresh<M, S>(
    pools: Seq<PoolModel<M, S>>,
    name: Seq<char>,
    url: Seq<char>,
)
    requires
        registration(pools, name, url) is Ok,
    ensures
        granted(registered(pools, name, url), name) == (Grant::<M, S>::Fresh {
            family: url_family(url)->0,
            url,
        }),
{
    let family = url_family(url)->0;
    let pool = PoolModel::<M, S> { name, url, idle: IdleModel::none(family) };
    lemma_position_of_pushed(pools, pool, 0);
}

/// Registration keeps the names of the pools distinct: every name names
/// one pool.
pub proof fn lemma_registered_names_distinct<M, S>(
    pools: Seq<PoolModel<M, S>>,
    name: Seq<char>,
    url: Seq<char>,
)
    requires
        distinct_names(pools),
    ensures
        distinct_names(registered(pools, name, url)),
{
    if position(pools, name) is None {
        lemma_position_none(pools, name, 0);
    }
}

/// A release keeps the names of the pools distinct.
pub proof fn lemma_released_names_distinct<M, S>(
    pools: Seq<PoolModel<M, S>>,
    name: Seq<char>,
    conn: DbStruct<M, S>,
)
    requires
        distinct_names(pools),
    ensures
        distinct_names(released(pools, name, conn)),
{
    lemma_position_in_range(pools, name, 0);
}

/// An acquisition keeps the names of the pools distinct.
pub proof fn lemma_acquired_names_distinct<M, S>(pools: Seq<PoolModel<M, S>>, name: Seq<char>)
    requires
        distinct_names(pools),
    ensures
        distinct_names(acquired(pools, name)),
{
    lemma_position_in_range(pools, name, 0);
}

} // verus!
