use vstd::prelude::*;

verus! {

/// A shareable handle to one pool of redis connections. Cloning the handle
/// shares the pool; it never duplicates connections. The pool's own state is
/// opaque to the verifier, so everything the contracts say about it goes
/// through the trusted wrappers below.
#[verifier::external_body]
pub struct PoolHandle {
    /// The underlying r2d2 pool, for unverified adapter code that needs the
    /// full r2d2 interface.
    pub pool: r2d2::Pool<r2d2_redis::RedisConnectionManager>,
}

/// One connection checked out of a pool for the duration of a handler scope.
/// Dropping the lease returns the connection to the pool on every exit path;
/// r2d2 guarantees that, not this crate.
#[verifier::external_body]
pub struct ConnLease {
    /// The checked-out connection, for unverified handler code. It
    /// dereferences to a redis connection.
    pub conn: r2d2::PooledConnection<r2d2_redis::RedisConnectionManager>,
}

#[verifier::external_type_specification]
#[verifier::external_body]
pub struct ExRedisError(r2d2_redis::redis::RedisError);

#[verifier::external_type_specification]
#[verifier::external_body]
pub struct ExRedisConnectionManager(r2d2_redis::RedisConnectionManager);

#[verifier::external_type_specification]
#[verifier::external_body]
pub struct ExPoolError(r2d2::Error);

/// Whether a parameter string parses as valid redis connection info. The
/// grammar is the redis crate's; nothing here restates it. Which schemes the
/// grammar admits depends on how that crate was built, but within one built
/// artifact the parse is a pure function of the string.
pub uninterp spec fn redis_url_ok(params: Seq<char>) -> bool;

/// The pool a lease's connection was checked out of, and to which it returns
/// when the lease is dropped.
pub uninterp spec fn lease_source(lease: ConnLease) -> PoolHandle;

/// The acquire timeout, in milliseconds, that a pool was built with.
pub uninterp spec fn acquire_timeout_ms_of(pool: PoolHandle) -> int;

/// The maximum number of connections a pool was built to manage; it never
/// holds more than this many at once.
pub uninterp spec fn pool_max_size_of(pool: PoolHandle) -> int;

/// Relies on r2d2_redis::RedisConnectionManager::new: it only parses the
/// parameters (through redis::IntoConnectionInfo), so it succeeds exactly
/// when they are valid connection info, and its result depends on the
/// parameter string alone.
#[verifier::external_body]
pub(crate) fn make_manager(params: &str) -> (r: Result<r2d2_redis::RedisConnectionManager, r2d2_redis::redis::RedisError>)
    ensures
        (r is Ok) <==> redis_url_ok(params@),
{
    r2d2_redis::RedisConnectionManager::new(params)
}

/// Relies on r2d2's pool builder. Failures to acquire or validate a
/// connection are logged through r2d2::LoggingErrorHandler; connections are
/// established on demand (a minimum idle count of zero), so building the pool
/// does not contact the backend, and r2d2's initialization wait finishes at
/// once: the build always returns Ok. Acquisition waits at most the given
/// timeout, which r2d2's builder demands be positive (it panics on a zero
/// duration, so zero is excluded here).
#[verifier::external_body]
pub(crate) fn build_pool(manager: r2d2_redis::RedisConnectionManager, timeout_ms: u64) -> (r: Result<PoolHandle, r2d2::Error>)
    requires
        timeout_ms > 0,
    ensures
        r is Ok,
        (r matches Ok(h) ==> acquire_timeout_ms_of(h) == timeout_ms),
{
    let pool = r2d2::Pool::builder()
        .error_handler(Box::new(r2d2::LoggingErrorHandler))
        .min_idle(Some(0))
        .connection_timeout(std::time::Duration::from_millis(timeout_ms))
        .build(manager)?;
    Ok(PoolHandle { pool })
}

/// Relies on r2d2::Pool::clone, which returns a new handle referencing the
/// same pool state.
#[verifier::external_body]
pub(crate) fn clone_handle(h: &PoolHandle) -> (r: PoolHandle)
    ensures
        r == *h,
{
    PoolHandle { pool: h.pool.clone() }
}

/// Relies on r2d2::Pool::get: it waits at most the pool's acquire timeout for
/// a connection; an Ok lease wraps a connection checked out of this same pool
/// (r2d2 stores a clone of the pool handle inside the lease and returns the
/// connection to it when the lease is dropped); Err means the timeout elapsed
/// first.
#[verifier::external_body]
pub(crate) fn pool_get(h: &PoolHandle) -> (r: Result<ConnLease, r2d2::Error>)
    ensures
        (r matches Ok(c) ==> lease_source(c) == *h),
{
    match h.pool.get() {
        Ok(conn) => Ok(ConnLease { conn }),
        Err(e) => Err(e),
    }
}

/// Relies on r2d2::Pool::state: under one lock it reports how many
/// connections the pool currently holds in all and how many of them sit idle;
/// the idle ones are among the held ones, and the pool never establishes a
/// connection past its configured maximum (its bookkeeping refuses to add one
/// once held plus pending connections reach that maximum).
#[verifier::external_body]
pub(crate) fn pool_counts(h: &PoolHandle) -> (r: (u32, u32))
    ensures
        r.1 <= r.0,
        r.0 <= pool_max_size_of(*h),
{
    let s = h.pool.state();
    (s.connections, s.idle_connections)
}

/// Relies on r2d2::Pool::max_size, which returns the maximum the pool was
/// built with.
#[verifier::external_body]
pub(crate) fn pool_max(h: &PoolHandle) -> (r: u32)
    ensures
        r == pool_max_size_of(*h),
{
    h.pool.max_size()
}

} // verus!
