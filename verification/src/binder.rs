use vstd::prelude::*;

use crate::errors::BinderError;
use crate::pool::ConnLease;
use crate::pool::PoolHandle;
use crate::pool::acquire_timeout_ms_of;
use crate::pool::build_pool;
use crate::pool::clone_handle;
use crate::pool::lease_source;
use crate::pool::make_manager;
use crate::pool::pool_counts;
use crate::pool::pool_get;
use crate::pool::pool_max;
use crate::pool::pool_max_size_of;
use crate::pool::redis_url_ok;

verus! {

/// How long, in milliseconds, a `RedisMiddleware` built with `new` waits for
/// a connection before the accessor fails.
pub const DEFAULT_ACQUIRE_TIMEOUT_MS: u64 = 30000;

/// Middleware that allows for redis connections within requests.
pub struct RedisMiddleware {
    /// A pool of redis connections that are shared between requests.
    pub pool: PoolHandle,
}

/// The item the binder stores in a request's storage: a shareable handle to
/// the binder's pool.
pub struct Value(pub PoolHandle);

impl Value {
    /// Draws one connection out of the handle's pool. An Ok lease is checked
    /// out of exactly this handle's pool and returns to it when dropped; if
    /// no connection frees up within the pool's acquire timeout, the call
    /// fails with `PoolExhaustedError`.
    pub fn acquire(&self) -> (r: Result<ConnLease, BinderError>)
        ensures
            (r matches Ok(c) ==> lease_source(c) == self.0),
            (r matches Err(e) ==> e is PoolExhaustedError),
    {
        match pool_get(&self.0) {
            Ok(lease) => Ok(lease),
            Err(_) => Err(BinderError::PoolExhaustedError),
        }
    }
}

/// The per-request storage the binder writes into and the accessor reads
/// from. One value of this type belongs to one request; it starts empty and
/// gains the binder's pool handle when the hook runs.
pub struct RequestContext {
    slot: Option<Value>,
}

impl RequestContext {
    /// Whether the binder's hook has run on this request.
    pub closed spec fn installed(&self) -> bool {
        self.slot is Some
    }

    /// The pool handle the hook stored; meaningful only when installed.
    pub closed spec fn stored_pool(&self) -> PoolHandle {
        self.slot->Some_0.0
    }

    /// A fresh request context on which no hook has run yet.
    pub fn new() -> (r: RequestContext)
        ensures
            !r.installed(),
    {
        RequestContext { slot: None }
    }
}

impl RedisMiddleware {
    /// Creates a middleware around a fresh pool of connections to the given
    /// redis server; no connection is opened yet. Succeeds
    /// exactly when the parameters parse as valid redis connection info;
    /// otherwise it fails with `ConnectionConfigError` and no pool is
    /// reachable from the result. Connections are established lazily, so a
    /// backend that is down at construction time does not fail construction.
    pub fn new(params: &str) -> (r: Result<RedisMiddleware, BinderError>)
        ensures
            (r is Ok) <==> redis_url_ok(params@),
            (r matches Err(e) ==> e is ConnectionConfigError),
            (r matches Ok(m) ==> acquire_timeout_ms_of(m.pool) == DEFAULT_ACQUIRE_TIMEOUT_MS),
    {
        Self::new_with_timeout(params, DEFAULT_ACQUIRE_TIMEOUT_MS)
    }

    /// Like `new`, but the accessor waits at most `acquire_timeout_ms` for a
    /// free connection before failing with `PoolExhaustedError`. The timeout
    /// must be positive: the pool refuses a zero wait.
    pub fn new_with_timeout(params: &str, acquire_timeout_ms: u64) -> (r: Result<RedisMiddleware, BinderError>)
        requires
            acquire_timeout_ms > 0,
        ensures
            (r is Ok) <==> redis_url_ok(params@),
            (r matches Err(e) ==> e is ConnectionConfigError),
            (r matches Ok(m) ==> acquire_timeout_ms_of(m.pool) == acquire_timeout_ms),
    {
        let manager = match make_manager(params) {
            Ok(m) => m,
            Err(_) => {
                return Err(BinderError::ConnectionConfigError);
            },
        };
        match build_pool(manager, acquire_timeout_ms) {
            Ok(pool) => Ok(RedisMiddleware { pool }),
            Err(_) => Err(BinderError::PoolInitError),
        }
    }

    /// The per-request hook: stores a handle to the binder's pool in the
    /// request's storage. It always succeeds, mutates only the request
    /// context, and does not touch the pool, so no connection is created,
    /// checked out or returned by running it.
    pub fn before(&self, ctx: &mut RequestContext) -> (r: Result<(), BinderError>)
        ensures
            r is Ok,
            final(ctx).installed(),
            final(ctx).stored_pool() == self.pool,
    {
        ctx.slot = Some(Value(clone_handle(&self.pool)));
        Ok(())
    }

    /// The value `before` stores: a fresh handle to this binder's pool, for
    /// adapter code that writes into a foreign request-storage type itself.
    pub fn stored_value(&self) -> (r: Value)
        ensures
            r.0 == self.pool,
    {
        Value(clone_handle(&self.pool))
    }

    /// Current (total, idle) connection counts of the pool; the idle
    /// connections are among the total, and the total never passes the
    /// pool's configured maximum — excess demand queues or times out instead
    /// of opening further backend connections.
    pub fn status(&self) -> (r: (u32, u32))
        ensures
            r.1 <= r.0,
            r.0 <= pool_max_size_of(self.pool),
    {
        pool_counts(&self.pool)
    }

    /// The maximum number of connections the pool manages at once.
    pub fn max_connections(&self) -> (r: u32)
        ensures
            r == pool_max_size_of(self.pool),
    {
        pool_max(&self.pool)
    }
}

/// Adds a method to requests to get a redis connection.
pub trait RedisReqExt {
    /// Whether the binder's hook has run on this request. Calling the
    /// accessor on a request the hook never reached is a wiring defect of the
    /// caller, not a runtime condition, so `redis_conn` demands this.
    spec fn redis_ready(&self) -> bool;

    /// The pool the hook bound to this request.
    spec fn redis_pool(&self) -> PoolHandle;

    /// Returns a pooled connection to the redis database. The connection is
    /// returned to the pool when the lease is dropped. Every lease comes from
    /// the pool the hook bound to this request, never from an unrelated one;
    /// if no connection frees up within the pool's acquire timeout, the call
    /// fails with `PoolExhaustedError`.
    fn redis_conn(&self) -> (r: Result<ConnLease, BinderError>)
        requires
            self.redis_ready(),
        ensures
            (r matches Ok(c) ==> lease_source(c) == self.redis_pool()),
            (r matches Err(e) ==> e is PoolExhaustedError),
    ;
}

impl RedisReqExt for RequestContext {
    open spec fn redis_ready(&self) -> bool {
        self.installed()
    }

    open spec fn redis_pool(&self) -> PoolHandle {
        self.stored_pool()
    }

    fn redis_conn(&self) -> (r: Result<ConnLease, BinderError>) {
        let value = self.slot.as_ref().unwrap();
        value.acquire()
    }
}

/// Law: once the binder's hook has run on a request, the accessor's
/// precondition holds on that request, and the pool the accessor draws from
/// is the binder's own pool — so a lease the accessor returns is never from
/// an unrelated pool.
pub proof fn lemma_hook_enables_accessor(m: RedisMiddleware, ctx: RequestContext)
    requires
        ctx.installed(),
        ctx.stored_pool() == m.pool,
    ensures
        ctx.redis_ready(),
        ctx.redis_pool() == m.pool,
{
}

} // verus!
