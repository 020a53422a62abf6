//! Tenant-scoped pool registry.
//!
//! The registry maps a tenant key (base connection URL plus tenant database
//! name, see `tenant::tenant_key`) to a lazily created, cached connection
//! pool. The cache is a concurrent map; entries, once created, live for the
//! process lifetime — there is no eviction. Get-or-create is a single
//! operation on the registry, so two callers for the same key observe
//! exactly one constructed pool.
//!
//! The registry hands out `ConnectionPool` handles; the unverified boundary
//! owns the physical connections behind each handle.

use vstd::prelude::*;
use crate::errors::PoolCreationError;

verus! {

/// A handle to the one connection pool of a tenant. Handles compare equal
/// exactly when they name the same underlying pool.
#[derive(Clone, Copy, Debug, PartialEq, Eq, Structural)]
pub struct ConnectionPool {
    pub pool_id: u64,
}

/// What a pool cache holds: the binding from tenant key to pool handle.
pub uninterp spec fn pool_map_contents(m: dashmap::DashMap<String, u64>) -> Map<Seq<char>, u64>;

#[verifier::external_type_specification]
#[verifier::external_body]
#[verifier::reject_recursive_types(K)]
#[verifier::reject_recursive_types(V)]
#[verifier::reject_recursive_types(S)]
pub struct ExDashMap<K, V, S>(dashmap::DashMap<K, V, S>);

/// Relies on `dashmap::DashMap::new`: a fresh map holds no binding.
#[verifier::external_body]
fn pool_map_new() -> (m: dashmap::DashMap<String, u64>)
    ensures
        forall|k: Seq<char>| !pool_map_contents(m).contains_key(k),
{
    dashmap::DashMap::new()
}

/// Relies on `dashmap::DashMap::get`: returns the value bound to the key,
/// if any.
#[verifier::external_body]
fn pool_map_get(m: &dashmap::DashMap<String, u64>, k: &String) -> (r: Option<u64>)
    ensures
        pool_map_contents(*m).contains_key(k@) ==> r == Some(pool_map_contents(*m)[k@]),
        !pool_map_contents(*m).contains_key(k@) ==> r is None,
{
    match m.get(k) {
        Some(entry) => Some(*entry.value()),
        None => None,
    }
}

/// Relies on `dashmap::DashMap::insert`: binds the key to the value,
/// replacing any earlier binding.
#[verifier::external_body]
fn pool_map_insert(m: &mut dashmap::DashMap<String, u64>, k: String, v: u64)
    ensures
        pool_map_contents(*final(m)) == pool_map_contents(*old(m)).insert(k@, v),
{
    m.insert(k, v);
}

/// The pool registry: one entry per tenant key, created on first access.
pub struct PoolRegistry {
    pools: dashmap::DashMap<String, u64>,
    next_id: u64,
}

/// The registry model is well formed when every cached handle was minted
/// below the next fresh id, so a newly minted handle never collides with a
/// cached one.
pub open spec fn model_wf(m: Map<Seq<char>, u64>, next: u64) -> bool {
    forall|k: Seq<char>| #[trigger] m.contains_key(k) ==> m[k] < next
}

/// One get-or-create step on the registry model: an existing binding is
/// returned as is; otherwise a fresh handle is minted and cached. The
/// outcome is `None` only when the handle space is exhausted.
pub open spec fn spec_get_or_create(m: Map<Seq<char>, u64>, next: u64, key: Seq<char>) -> (
    Map<Seq<char>, u64>,
    u64,
    Option<(u64, bool)>,
) {
    if m.contains_key(key) {
        (m, next, Some((m[key], false)))
    } else if next < u64::MAX {
        (m.insert(key, next), (next + 1) as u64, Some((next, true)))
    } else {
        (m, next, None)
    }
}

impl PoolRegistry {
    /// The bindings the registry currently caches.
    pub closed spec fn pool_map(self) -> Map<Seq<char>, u64> {
        pool_map_contents(self.pools)
    }

    /// The next fresh pool handle.
    pub closed spec fn next(self) -> u64 {
        self.next_id
    }

    pub open spec fn wf(self) -> bool {
        model_wf(self.pool_map(), self.next())
    }

    /// A registry with no cached pool.
    pub fn new() -> (r: PoolRegistry)
        ensures
            r.wf(),
            r.pool_map() == Map::<Seq<char>, u64>::empty(),
            r.next() == 0,
    {
        let pools = pool_map_new();
        proof {
            assert(pool_map_contents(pools) =~= Map::<Seq<char>, u64>::empty());
        }
        PoolRegistry { pools, next_id: 0 }
    }

    /// The cached pool for a tenant key, if one was already created.
    pub fn lookup_pool(&self, tenant_key: &String) -> (r: Option<ConnectionPool>)
        ensures
            self.pool_map().contains_key(tenant_key@) ==> r == Some(
                ConnectionPool { pool_id: self.pool_map()[tenant_key@] },
            ),
            !self.pool_map().contains_key(tenant_key@) ==> r is None,
    {
        match pool_map_get(&self.pools, tenant_key) {
            Some(id) => Some(ConnectionPool { pool_id: id }),
            None => None,
        }
    }

    /// Return the cached pool for the tenant key, or construct, cache and
    /// return a new one. The returned flag says whether a pool was
    /// constructed by this call.
    ///
    /// Success is owed on every input except a first access once the handle
    /// space is exhausted; in that case the registry is left unchanged and
    /// the caller decides retry policy.
    pub fn get_or_create_pool(&mut self, tenant_key: &String) -> (r: Result<
        (ConnectionPool, bool),
        PoolCreationError,
    >)
        requires
            old(self).wf(),
        ensures
            final(self).wf(),
            ({
                let (m2, n2, out) = spec_get_or_create(
                    old(self).pool_map(),
                    old(self).next(),
                    tenant_key@,
                );
                &&& final(self).pool_map() == m2
                &&& final(self).next() == n2
                &&& match r {
                    Ok((pool, constructed)) => out == Some((pool.pool_id, constructed)),
                    Err(_) => out is None,
                }
            }),
    {
        match pool_map_get(&self.pools, tenant_key) {
            Some(id) => Ok((ConnectionPool { pool_id: id }, false)),
            None => {
                if self.next_id == u64::MAX {
                    return Err(
                        PoolCreationError { message: "pool handle space exhausted".to_string() },
                    );
                }
                let id = self.next_id;
                self.next_id = id + 1;
                pool_map_insert(&mut self.pools, tenant_key.clone(), id);
                Ok((ConnectionPool { pool_id: id }, true))
            },
        }
    }
}

/// The registry model after a sequence of get-or-create calls, one per
/// element of `keys`, in order.
pub open spec fn spec_run(m: Map<Seq<char>, u64>, next: u64, keys: Seq<Seq<char>>) -> (
    Map<Seq<char>, u64>,
    u64,
)
    decreases keys.len(),
{
    if keys.len() == 0 {
        (m, next)
    } else {
        let (m1, n1, out) = spec_get_or_create(m, next, keys[0]);
        spec_run(m1, n1, keys.drop_first())
    }
}

/// How many of the calls in `keys` construct a pool for `key`.
pub open spec fn spec_constructions(
    m: Map<Seq<char>, u64>,
    next: u64,
    keys: Seq<Seq<char>>,
    key: Seq<char>,
) -> nat
    decreases keys.len(),
{
    if keys.len() == 0 {
        0
    } else {
        let (m1, n1, out) = spec_get_or_create(m, next, keys[0]);
        let here: nat = if keys[0] == key && (out matches Some(p) && p.1) {
            1
        } else {
            0
        };
        here + spec_constructions(m1, n1, keys.drop_first(), key)
    }
}

/// The pool handles that the calls on `key` among `keys` return.
pub open spec fn spec_returns(
    m: Map<Seq<char>, u64>,
    next: u64,
    keys: Seq<Seq<char>>,
    key: Seq<char>,
) -> Seq<u64>
    decreases keys.len(),
{
    if keys.len() == 0 {
        Seq::empty()
    } else {
        let (m1, n1, out) = spec_get_or_create(m, next, keys[0]);
        let rest = spec_returns(m1, n1, keys.drop_first(), key);
        if keys[0] == key && out is Some {
            seq![out->Some_0.0] + rest
        } else {
            rest
        }
    }
}

/// Pool uniqueness: from a well-formed registry, any finite sequence of
/// get-or-create calls — for `key` and any other keys, in any interleaving —
/// constructs a pool for `key` exactly once if `key` occurs and was not yet
/// cached (never twice), and every call on `key` returns a handle to that
/// same one pool. The bound on `next` only rules out handle-space
/// exhaustion during the run.
pub proof fn lemma_pool_uniqueness(
    m: Map<Seq<char>, u64>,
    next: u64,
    keys: Seq<Seq<char>>,
    key: Seq<char>,
)
    requires
        model_wf(m, next),
        next + keys.len() <= u64::MAX,
    ensures
        model_wf(spec_run(m, next, keys).0, spec_run(m, next, keys).1),
        spec_run(m, next, keys).0.contains_key(key) <==> (m.contains_key(key) || keys.contains(
            key,
        )),
        m.contains_key(key) ==> spec_run(m, next, keys).0[key] == m[key],
        spec_constructions(m, next, keys, key) == (if !m.contains_key(key) && keys.contains(key) {
            1nat
        } else {
            0nat
        }),
        forall|i: int|
            0 <= i < spec_returns(m, next, keys, key).len() ==> spec_returns(m, next, keys, key)[i]
                == spec_run(m, next, keys).0[key],
    decreases keys.len(),
{
    if keys.len() == 0 {
    } else {
        let (m1, n1, out) = spec_get_or_create(m, next, keys[0]);
        assert(model_wf(m1, n1));
        lemma_pool_uniqueness(m1, n1, keys.drop_first(), key);
        assert(keys.contains(key) <==> (keys[0] == key || keys.drop_first().contains(key))) by {
            if keys.contains(key) {
                let i = choose|i: int| 0 <= i < keys.len() && keys[i] == key;
                if i > 0 {
                    assert(keys.drop_first()[i - 1] == key);
                }
            }
            if keys.drop_first().contains(key) {
                let j = choose|j: int|
                    0 <= j < keys.drop_first().len() && keys.drop_first()[j] == key;
                assert(keys[j + 1] == key);
            }
        }
        let fin = spec_run(m, next, keys).0;
        let rest = spec_returns(m1, n1, keys.drop_first(), key);
        if keys[0] == key && out is Some {
            assert(m1.contains_key(key));
            assert(fin[key] == m1[key]);
            assert(spec_returns(m, next, keys, key) == seq![out->Some_0.0] + rest);
            assert(out->Some_0.0 == m1[key]);
            assert forall|i: int| 0 <= i < spec_returns(m, next, keys, key).len() implies
                spec_returns(m, next, keys, key)[i] == fin[key] by {
                if i == 0 {
                    assert(spec_returns(m, next, keys, key)[0] == out->Some_0.0);
                } else {
                    assert(spec_returns(m, next, keys, key)[i] == rest[i - 1]);
                }
            }
        }
    }
}

} // verus!
