use burgers::handler::created_location;
use burgers::handler::error_status;
use burgers::model::RepoError;
use burgers::pool::Pool;
use burgers::router::create_routes;
use burgers::router::HttpMethod;
use burgers::text::str_contains;
use burgers::text::u32_to_dec;

#[test]
fn api_root() {
    // Nothing is mounted at the root path, so a request there matches
    // no route and ends as a missing-resource response.
    let routes = create_routes();
    assert!(routes.iter().all(|r| r.path != "/"));
    assert_eq!(error_status(&RepoError::NotFound), 404);
}

#[test]
fn routes_cover_the_resource() {
    let routes = create_routes();
    assert_eq!(routes.len(), 7);
    assert_eq!(routes[0].method, HttpMethod::Get);
    assert_eq!(routes[0].path, "/burgers");
    assert_eq!(routes[1].method, HttpMethod::Get);
    assert_eq!(routes[1].path, "/burgers/<id>");
    assert_eq!(routes[2].method, HttpMethod::Get);
    assert_eq!(routes[2].path, "/burgers/name/<name>");
    assert_eq!(routes[3].method, HttpMethod::Get);
    assert_eq!(routes[3].path, "/burgers/random");
    assert_eq!(routes[4].method, HttpMethod::Post);
    assert_eq!(routes[4].path, "/burgers");
    assert_eq!(routes[5].method, HttpMethod::Put);
    assert_eq!(routes[5].path, "/burgers/<id>");
    assert_eq!(routes[6].method, HttpMethod::Delete);
    assert_eq!(routes[6].path, "/burgers/<id>");
}

#[test]
fn failure_kinds_map_to_distinct_statuses() {
    assert_eq!(error_status(&RepoError::NotFound), 404);
    assert_eq!(error_status(&RepoError::StorageError), 500);
}

#[test]
fn created_location_names_the_new_row() {
    assert_eq!(created_location("127.0.0.1", "8000", 42), "127.0.0.1:8000/burgers/42");
    assert_eq!(created_location("localhost", "80", 1), "localhost:80/burgers/1");
}

#[test]
fn decimal_rendering_is_exact() {
    assert_eq!(u32_to_dec(0), "0");
    assert_eq!(u32_to_dec(7), "7");
    assert_eq!(u32_to_dec(10), "10");
    assert_eq!(u32_to_dec(2147483647), "2147483647");
}

#[test]
fn substring_match_is_case_sensitive() {
    assert!(str_contains("Waldo burger", "Wa"));
    assert!(!str_contains("Waldo burger", "wa"));
    assert!(str_contains("Waldo burger", "urge"));
    assert!(str_contains("Waldo burger", ""));
    assert!(!str_contains("Wa", "Waldo"));
    assert!(str_contains("Waldo burger", "Waldo burger"));
}

#[test]
fn pool_is_bounded_and_reusable() {
    let mut pool = Pool::new(1);
    let conn = pool.acquire().expect("one connection is available");
    assert_eq!(pool.acquire().unwrap_err(), RepoError::StorageError);
    pool.release(conn);
    let conn = pool.acquire().expect("the released connection is available again");
    pool.release(conn);
}
