use backend::config::RedisConfig;
use backend::errors::AppError;
use backend::redis::create_client;

fn config(uri: &str) -> RedisConfig {
    RedisConfig { uri: uri.to_string() }
}

#[test]
fn client_for_a_redis_url() {
    let client = create_client(&config("redis://127.0.0.1:6379/2")).expect("the URL is accepted");
    let info = client.get_connection_info();
    assert_eq!(info.addr.to_string(), "127.0.0.1:6379");
    assert_eq!(info.redis.db, 2);
}

#[test]
fn default_port_and_database() {
    let client = create_client(&config("redis://cache.internal/")).expect("the URL is accepted");
    let info = client.get_connection_info();
    assert_eq!(info.addr.to_string(), "cache.internal:6379");
    assert_eq!(info.redis.db, 0);
}

#[test]
fn text_that_is_no_url_is_a_redis_error() {
    assert!(matches!(create_client(&config("not a url")), Err(AppError::Redis)));
    assert!(matches!(create_client(&config("")), Err(AppError::Redis)));
}

#[test]
fn url_of_another_scheme_is_a_redis_error() {
    assert!(matches!(create_client(&config("http://127.0.0.1/")), Err(AppError::Redis)));
}

#[test]
fn database_that_is_no_number_is_a_redis_error() {
    assert!(matches!(create_client(&config("redis://127.0.0.1/main")), Err(AppError::Redis)));
}
