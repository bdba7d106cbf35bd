use redis_middleware::BinderError;
use redis_middleware::RedisMiddleware;
use redis_middleware::RedisReqExt;
use redis_middleware::RequestContext;

#[test]
fn construction_succeeds_on_valid_parameters() {
    let binder = RedisMiddleware::new("redis://127.0.0.1:6399/").unwrap();
    // Connections are established on demand: a fresh pool holds none.
    assert_eq!(binder.status(), (0, 0));
}

#[test]
fn construction_succeeds_without_reachable_backend() {
    // Port 1 is closed; the parameters are still valid connection info.
    assert!(RedisMiddleware::new("redis://127.0.0.1:1/").is_ok());
}

#[test]
fn construction_fails_on_malformed_parameters() {
    assert_eq!(
        RedisMiddleware::new("not a redis url").err(),
        Some(BinderError::ConnectionConfigError)
    );
    assert_eq!(
        RedisMiddleware::new("http://example.com/").err(),
        Some(BinderError::ConnectionConfigError)
    );
    assert_eq!(
        RedisMiddleware::new("").err(),
        Some(BinderError::ConnectionConfigError)
    );
}

#[test]
fn hook_always_succeeds_and_leaves_the_pool_untouched() {
    let binder = RedisMiddleware::new("redis://127.0.0.1:6399/").unwrap();
    let counts = binder.status();
    let mut ctx = RequestContext::new();
    assert!(binder.before(&mut ctx).is_ok());
    // Running the hook created, checked out and returned no connection.
    assert_eq!(binder.status(), counts);
    assert_eq!(binder.status(), (0, 0));
}

#[test]
fn many_requests_share_one_pool() {
    let binder = RedisMiddleware::new("redis://127.0.0.1:6399/").unwrap();
    let mut first = RequestContext::new();
    let mut second = RequestContext::new();
    let mut third = RequestContext::new();
    assert!(binder.before(&mut first).is_ok());
    assert!(binder.before(&mut second).is_ok());
    assert!(binder.before(&mut third).is_ok());
    assert_eq!(binder.status(), (0, 0));
}

#[test]
fn accessor_fails_with_pool_exhausted_when_no_connection_comes() {
    // The backend is unreachable, so no connection can be established and the
    // accessor must give up once the configured timeout elapses.
    let binder = RedisMiddleware::new_with_timeout("redis://127.0.0.1:1/", 150).unwrap();
    let mut ctx = RequestContext::new();
    binder.before(&mut ctx).unwrap();
    match ctx.redis_conn() {
        Ok(_) => panic!("a lease came from an unreachable backend"),
        Err(e) => assert_eq!(e, BinderError::PoolExhaustedError),
    }
}

#[test]
fn messages_name_each_failure() {
    assert_eq!(
        BinderError::ConnectionConfigError.message(),
        "malformed backend connection parameters"
    );
    assert_eq!(
        BinderError::PoolInitError.message(),
        "could not initialize the connection pool"
    );
    assert_eq!(
        BinderError::PoolExhaustedError.message(),
        "no pooled connection became available in time"
    );
}

#[test]
fn pool_never_exceeds_its_configured_maximum() {
    let binder = RedisMiddleware::new("redis://127.0.0.1:6399/").unwrap();
    // r2d2's default maximum.
    assert_eq!(binder.max_connections(), 10);
    let (total, idle) = binder.status();
    assert!(idle <= total);
    assert!(total <= binder.max_connections());
}
