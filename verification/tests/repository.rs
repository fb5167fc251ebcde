use burgers::model::InsertableBurger;
use burgers::model::RepoError;
use burgers::pool::Connection;
use burgers::pool::Pool;
use burgers::repository::Repository;

fn payload(name: &str, description: &str) -> InsertableBurger {
    InsertableBurger { name: name.to_string(), description: description.to_string() }
}

fn checkout() -> (Pool, Connection) {
    let mut pool = Pool::new(4);
    let conn = pool.acquire().expect("a fresh pool has a connection to lend");
    (pool, conn)
}

#[test]
fn add_burger() {
    let (mut pool, conn) = checkout();
    let mut repo = Repository::new();

    let burger = repo
        .insert(payload("Jane Doe Burger", "lorem ipsum"), &conn)
        .expect("insert succeeds on a fresh table");
    assert_eq!(burger.name, "Jane Doe Burger");
    assert_eq!(burger.description, "lorem ipsum");

    assert_eq!(repo.delete(burger.id, &conn), Ok(1));
    pool.release(conn);
}

#[test]
fn list_burgers() {
    let (mut pool, conn) = checkout();
    let mut repo = Repository::new();

    let burger = repo
        .insert(payload("Jane Doe Burger", "lorem ipsum"), &conn)
        .expect("insert succeeds on a fresh table");

    let listed = repo.all(&conn).expect("listing never fails");
    assert!(listed.iter().any(|b| b.name == "Jane Doe Burger"));

    assert_eq!(repo.delete(burger.id, &conn), Ok(1));
    pool.release(conn);
}

#[test]
fn update_burger() {
    let (mut pool, conn) = checkout();
    let mut repo = Repository::new();

    let initial_burger = repo
        .insert(payload("Bad Burger", "lorem ipsum"), &conn)
        .expect("insert succeeds on a fresh table");

    let updated_burger = repo
        .update(initial_burger.id, payload("Good Burger", "best burger ever"), &conn)
        .expect("the row exists, so update succeeds");
    assert_eq!(updated_burger.name, "Good Burger");
    assert_eq!(updated_burger.description, "best burger ever");
    assert_eq!(updated_burger.id, initial_burger.id);

    let fetched = repo.get(initial_burger.id, &conn).expect("the row is still there");
    assert_eq!(fetched.name, "Good Burger");
    assert_eq!(fetched.description, "best burger ever");
    assert_eq!(fetched.id, initial_burger.id);

    assert_eq!(repo.delete(updated_burger.id, &conn), Ok(1));
    pool.release(conn);
}

#[test]
fn get_burger_by_id() {
    let (mut pool, conn) = checkout();
    let mut repo = Repository::new();

    let burger = repo
        .insert(payload("Decent Burger", "lorem ipsum"), &conn)
        .expect("insert succeeds on a fresh table");

    let burger_response = repo.get(burger.id, &conn).expect("the row was just inserted");
    assert_eq!(burger_response.name, burger.name);
    assert_eq!(burger_response.description, burger.description);
    assert_eq!(burger_response.id, burger.id);

    assert_eq!(repo.delete(burger_response.id, &conn), Ok(1));
    pool.release(conn);
}

#[test]
fn get_random_burger() {
    let (mut pool, conn) = checkout();
    let mut repo = Repository::new();

    let burger = repo
        .insert(payload("Ran Dom", "lorem ipsum"), &conn)
        .expect("insert succeeds on a fresh table");

    let picked = repo.rand(&conn).expect("the table is non-empty");
    assert_eq!(picked.id, burger.id);
    assert_eq!(picked.name, "Ran Dom");

    assert_eq!(repo.delete(burger.id, &conn), Ok(1));
    pool.release(conn);
}

#[test]
fn delete_burger() {
    let (mut pool, conn) = checkout();
    let mut repo = Repository::new();

    let burger = repo
        .insert(payload("Worst burger on earth", "Must be deleted"), &conn)
        .expect("insert succeeds on a fresh table");
    assert_eq!(burger.name, "Worst burger on earth");
    assert_eq!(burger.description, "Must be deleted");

    assert_eq!(repo.delete(burger.id, &conn), Ok(1));

    assert_eq!(repo.get(burger.id, &conn).unwrap_err(), RepoError::NotFound);
    pool.release(conn);
}

#[test]
fn find_burger_by_name() {
    let (mut pool, conn) = checkout();
    let mut repo = Repository::new();

    let waldo_burger = repo
        .insert(payload("Waldo burger", "red and white stripes"), &conn)
        .expect("insert succeeds on a fresh table");
    let wally_burger = repo
        .insert(payload("Wally burger", "red and white stripes"), &conn)
        .expect("insert succeeds on a fresh table");

    // The match is a case-sensitive substring: both names start with
    // an uppercase "Wa", so the lowercase fragment finds nothing and
    // that is an empty result, not an error.
    let lower = repo.find_by_name("wa", &conn).expect("searching never fails");
    assert!(lower.is_empty());

    let upper = repo.find_by_name("Wa", &conn).expect("searching never fails");
    assert_eq!(upper.len(), 2);
    assert_eq!(upper[0].name, "Waldo burger");
    assert_eq!(upper[1].name, "Wally burger");

    assert_eq!(repo.delete(waldo_burger.id, &conn), Ok(1));
    assert_eq!(repo.delete(wally_burger.id, &conn), Ok(1));
    pool.release(conn);
}

#[test]
fn random_on_empty_table_is_not_found() {
    let (mut pool, conn) = checkout();
    let repo = Repository::new();
    assert_eq!(repo.rand(&conn).unwrap_err(), RepoError::NotFound);
    pool.release(conn);
}

#[test]
fn random_pick_is_a_stored_row() {
    let (mut pool, conn) = checkout();
    let mut repo = Repository::new();
    let ids: Vec<i32> = ["One", "Two", "Three"]
        .iter()
        .map(|n| repo.insert(payload(n, "row"), &conn).unwrap().id)
        .collect();
    for _ in 0..20 {
        let picked = repo.rand(&conn).expect("the table is non-empty");
        assert!(ids.contains(&picked.id));
    }
    pool.release(conn);
}

#[test]
fn find_on_empty_table_is_empty() {
    let (mut pool, conn) = checkout();
    let repo = Repository::new();
    let matches = repo.find_by_name("anything", &conn).expect("searching never fails");
    assert!(matches.is_empty());
    pool.release(conn);
}

#[test]
fn find_with_empty_fragment_returns_all() {
    let (mut pool, conn) = checkout();
    let mut repo = Repository::new();
    repo.insert(payload("Alpha", "first"), &conn).unwrap();
    repo.insert(payload("Beta", "second"), &conn).unwrap();
    let matches = repo.find_by_name("", &conn).expect("searching never fails");
    assert_eq!(matches.len(), 2);
    pool.release(conn);
}

#[test]
fn identifiers_grow_and_are_never_reused() {
    let (mut pool, conn) = checkout();
    let mut repo = Repository::new();
    let a = repo.insert(payload("First", "row"), &conn).unwrap();
    let b = repo.insert(payload("Second", "row"), &conn).unwrap();
    let c = repo.insert(payload("Third", "row"), &conn).unwrap();
    assert_eq!((a.id, b.id, c.id), (1, 2, 3));

    assert_eq!(repo.delete(b.id, &conn), Ok(1));
    let d = repo.insert(payload("Fourth", "row"), &conn).unwrap();
    assert_eq!(d.id, 4);
    pool.release(conn);
}

#[test]
fn with_first_id_resumes_a_sequence() {
    let (mut pool, conn) = checkout();
    let mut repo = Repository::with_first_id(100);
    let a = repo.insert(payload("Hundredth", "row"), &conn).unwrap();
    assert_eq!(a.id, 100);
    pool.release(conn);
}

#[test]
fn insert_fails_when_identifier_space_is_spent() {
    let (mut pool, conn) = checkout();
    let mut repo = Repository::with_first_id(i32::MAX);
    let err = repo.insert(payload("Overflow", "no identifier left"), &conn).unwrap_err();
    assert_eq!(err, RepoError::StorageError);
    pool.release(conn);
}

#[test]
fn update_missing_row_is_not_found() {
    let (mut pool, conn) = checkout();
    let mut repo = Repository::new();
    let err = repo.update(7, payload("Ghost", "no such row"), &conn).unwrap_err();
    assert_eq!(err, RepoError::NotFound);
    pool.release(conn);
}

#[test]
fn delete_missing_row_is_a_zero_count() {
    let (mut pool, conn) = checkout();
    let mut repo = Repository::new();
    assert_eq!(repo.delete(7, &conn), Ok(0));
    pool.release(conn);
}
