use service_core::app_state::AppState;
use service_core::init::{SocketAddress, StartOptions};
use std::sync::Arc;

fn options() -> StartOptions {
    StartOptions {
        bind_address: SocketAddress::V4 { octets: [127, 0, 0, 1], port: 3000 },
        server_url: String::from("https://api.example.com"),
        database_url: String::from("postgres://localhost/db"),
        max_db_connections: 5,
        memcached_url: String::from("memcache://127.0.0.1:11211"),
        secure_proxy: true,
        cors_origins: vec![String::from("https://allowed.example")],
        global_limit_requests: 3,
        global_limit_per_seconds: 1,
        request_buffer_size: 2,
    }
}

#[test]
fn app_state_projects_each_handle_on_its_own() {
    let client = memcached::Client::connect("memcache://127.0.0.1:11211").unwrap();
    let state = AppState { start_options: options(), pool: Arc::new(String::from("pool")), memcached_client: client };
    assert_eq!(state.start_options(), options());
    assert_eq!(state.start_options(), state.start_options());
    let first = state.pool();
    let second = state.pool();
    assert!(Arc::ptr_eq(&first, &state.pool));
    assert!(Arc::ptr_eq(&first, &second));
    assert_eq!(Arc::strong_count(&state.pool), 3);
    let _cache = state.memcached_client();
    let copy = state.clone();
    assert!(Arc::ptr_eq(&copy.pool, &state.pool));
    assert_eq!(copy.start_options, state.start_options);
}
