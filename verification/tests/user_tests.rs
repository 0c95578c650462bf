use plant_ingest::models::User;
use plant_ingest::outcome::DbError;
use plant_ingest::users::{confirm_inserted, UserTable};

fn sample_user() -> User {
    User {
        email: String::from("a@b.com"),
        first_name: String::from("A"),
        last_name: String::from("B"),
        username: String::from("ab"),
    }
}

#[test]
fn insert_then_read_back_is_identical() {
    let mut table = UserTable::new();
    table.insert(sample_user());
    let n = table.len();
    assert_eq!(n, 1);
    let row = table.fetch(n - 1);
    assert_eq!(row.email, "a@b.com");
    assert_eq!(row.first_name, "A");
    assert_eq!(row.last_name, "B");
    assert_eq!(row.username, "ab");
}

#[test]
fn created_user_is_echoed_back() {
    // the insert statement returns the written row; the caller gets it back
    let confirmed = confirm_inserted(vec![sample_user()]);
    match confirmed {
        Ok(u) => {
            assert_eq!(u.email, "a@b.com");
            assert_eq!(u.first_name, "A");
            assert_eq!(u.last_name, "B");
            assert_eq!(u.username, "ab");
        },
        Err(_) => panic!("an inserted user must be confirmed"),
    }
}

#[test]
fn empty_confirmation_is_not_found() {
    let confirmed = confirm_inserted(Vec::new());
    match confirmed {
        Ok(_) => panic!("no row was returned, nothing to confirm"),
        Err(e) => assert_eq!(e, DbError::NotFound),
    }
}
