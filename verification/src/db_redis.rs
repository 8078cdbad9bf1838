//! The pool of clients of the clustered cache.

use redis::cluster::ClusterClient;
use vstd::prelude::*;

verus! {

/// `redis::cluster::ClusterClient`, the client of a cluster. The library
/// pools clients and never looks into them.
#[verifier::external_type_specification]
#[verifier::external_body]
pub struct ExClusterClient(redis::cluster::ClusterClient);

/// Whether the driver makes a client of a cluster from the addresses
/// `nodes` of its first nodes.
pub uninterp spec fn cluster_accepts(nodes: Seq<Seq<char>>) -> bool;

/// The addresses as plain texts.
pub open spec fn addresses(nodes: Seq<String>) -> Seq<Seq<char>> {
    Seq::new(nodes.len(), |i: int| nodes[i]@)
}

/// `redis::cluster::ClusterClient::new`: a client of the cluster whose
/// first nodes have the addresses `nodes`. No connection is made: the
/// driver reads the addresses and checks that they agree, and it rejects
/// an empty list.
#[verifier::external_body]
pub(crate) fn open_cluster(nodes: Vec<String>) -> (r: Option<ClusterClient>)
    ensures
        r is Some <==> cluster_accepts(addresses(nodes@)),
        nodes@.len() == 0 ==> r is None,
{
    ClusterClient::new(nodes).ok()
}

/// A copy of the texts.
fn copy_texts(texts: &Vec<String>) -> (r: Vec<String>)
    ensures
        r@ == texts@,
{
    let mut r: Vec<String> = Vec::new();
    let n: usize = texts.len();
    let mut i: usize = 0;
    while i < n
        invariant
            i <= n,
            n == texts@.len(),
            r@ == texts@.take(i as int),
        decreases n - i,
    {
        r.push(texts[i].clone());
        i = i + 1;
        assert(r@ =~= texts@.take(i as int));
    }
    assert(texts@.take(n as int) =~= texts@);
    r
}

/// The idle clients of one cluster, and the addresses of the nodes from
/// which a new client is made.
pub struct RedisPool {
    pub db_redis: Vec<ClusterClient>,
    pub url_list: Vec<String>,
}

impl RedisPool {
    /// A pool without clients and without addresses.
    pub fn new() -> (p: RedisPool)
        ensures
            p.db_redis@.len() == 0,
            p.url_list@.len() == 0,
    {
        RedisPool { db_redis: Vec::new(), url_list: Vec::new() }
    }

    /// A new client for the nodes of the pool; `None` where the driver
    /// rejects their addresses.
    pub fn init_connection(&self) -> (r: Option<ClusterClient>)
        ensures
            r is Some <==> cluster_accepts(addresses(self.url_list@)),
            self.url_list@.len() == 0 ==> r is None,
    {
        open_cluster(copy_texts(&self.url_list))
    }

    /// Sets the addresses of the nodes from which new clients are made.
    pub fn set_url_list(&mut self, url_list: Vec<String>) -> (r: bool)
        ensures
            r,
            final(self).url_list == url_list,
            final(self).db_redis == old(self).db_redis,
    {
        self.url_list = url_list;
        true
    }

    /// Takes a client out of the pool: the idle client that was released
    /// last, or, where none is idle, a new client for the nodes of the
    /// pool. The call never waits for a client to come back.
    pub fn get_redis_connection(&mut self) -> (r: Option<ClusterClient>)
        ensures
            final(self).url_list == old(self).url_list,
            old(self).db_redis@.len() > 0 ==> r == Some(old(self).db_redis@.last())
                && final(self).db_redis@ == old(self).db_redis@.drop_last(),
            old(self).db_redis@.len() == 0 ==> final(self).db_redis@ == old(self).db_redis@ && (r is Some
                <==> cluster_accepts(addresses(old(self).url_list@))),
            old(self).db_redis@.len() == 0 && old(self).url_list@.len() == 0 ==> r is None,
    {
        if self.db_redis.len() == 0 {
            return self.init_connection();
        }
        self.db_redis.pop()
    }

    /// Gives a client back to the pool: it becomes the idle client that
    /// was released last.
    pub fn release_redis_connection(&mut self, client: ClusterClient)
        ensures
            final(self).url_list == old(self).url_list,
            final(self).db_redis@ == old(self).db_redis@.push(client),
    {
        self.db_redis.push(client);
    }
}

/// A client that is released and taken out at once is the client that
/// comes back, and the idle clients are those from before the release.
pub proof fn lemma_release_then_get(idle: Seq<ClusterClient>, client: ClusterClient)
    ensures
        idle.push(client).len() > 0,
        idle.push(client).last() == client,
        idle.push(client).drop_last() == idle,
{
    assert(idle.push(client).drop_last() =~= idle);
}

} // verus!
