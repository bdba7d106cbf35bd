//! Middleware that attaches a shared pool of redis connections to each
//! incoming request and lets handler code draw one pooled connection out of
//! it on demand. The pooling itself is done by r2d2 around r2d2_redis's
//! connection manager; this crate owns the request-lifecycle glue: install a
//! shareable pool handle into per-request storage before the handler runs,
//! and hand out a leased connection from that handle when asked.

mod binder;
mod errors;
mod pool;

pub use crate::binder::DEFAULT_ACQUIRE_TIMEOUT_MS;
pub use crate::binder::RedisMiddleware;
pub use crate::binder::RedisReqExt;
pub use crate::binder::RequestContext;
pub use crate::binder::Value;
pub use crate::binder::lemma_hook_enables_accessor;
pub use crate::errors::BinderError;
pub use crate::pool::ConnLease;
pub use crate::pool::PoolHandle;
pub use crate::pool::acquire_timeout_ms_of;
pub use crate::pool::lease_source;
pub use crate::pool::pool_max_size_of;
pub use crate::pool::redis_url_ok;
