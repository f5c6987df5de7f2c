use pixiv_util::incremental::{is_illust_in_files, is_work_in_files};
use pixiv_util::user_mgmt::{retrieve_cookie, DbError, UserDatabase};

#[test]
fn index_finds_present_work() {
    let files = vec!["base/1234_p0.png".to_string(), "base/other.txt".to_string()];
    assert!(is_illust_in_files("1234", &files));
    assert!(is_work_in_files(1234, &files));
}

#[test]
fn index_misses_absent_work() {
    let files = vec!["base/999_p0.png".to_string()];
    assert!(!is_illust_in_files("1234", &files));
    assert!(!is_illust_in_files("1234", &[]));
}

#[test]
fn index_substring_match_gives_known_false_positive() {
    let files = vec!["base/12345_p0.png".to_string()];
    assert!(is_illust_in_files("1234", &files));
    let files = vec!["base/51234_p0.png".to_string()];
    assert!(is_work_in_files(1234, &files));
}

#[test]
fn index_matches_directory_of_work() {
    let files = vec!["base/Foo/1234/1234_p1.jpg".to_string()];
    assert!(is_work_in_files(1234, &files));
}

#[test]
fn store_add_and_lookup() {
    let mut db = UserDatabase::new();
    db.add_user("alice", "Cookie: a=1");
    db.add_user("bob", "b=2");
    assert_eq!(db.get_cookie("alice"), Some("a=1".to_string()));
    assert_eq!(db.get_cookie("bob"), Some("b=2".to_string()));
    assert_eq!(db.get_cookie("carol"), None);
    db.add_user("alice", "a=3");
    assert_eq!(db.get_cookie("alice"), Some("a=3".to_string()));
    assert_eq!(db.user_names(), vec!["bob".to_string(), "alice".to_string()]);
}

#[test]
fn store_default_user() {
    let mut db = UserDatabase::new();
    db.add_user("alice", "a=1");
    assert_eq!(db.get_default_cookie(), None);
    assert_eq!(db.set_default("nobody".to_string()), Err(DbError::NoSuchUser));
    assert_eq!(db.set_default("alice".to_string()), Ok(()));
    assert_eq!(db.get_default_cookie(), Some("a=1".to_string()));
    db.remove_default();
    assert_eq!(db.default_user, None);
}

#[test]
fn store_remove_user_clears_default() {
    let mut db = UserDatabase::new();
    db.add_user("alice", "a=1");
    db.add_user("bob", "b=1");
    db.set_default("alice".to_string()).unwrap();
    assert_eq!(db.remove_user("carol"), Err(DbError::NoSuchUser));
    assert_eq!(db.default_user, Some("alice".to_string()));
    assert_eq!(db.remove_user("alice"), Ok(()));
    assert_eq!(db.default_user, None);
    assert_eq!(db.get_cookie("alice"), None);
    assert_eq!(db.get_cookie("bob"), Some("b=1".to_string()));
}

#[test]
fn store_user_ids() {
    let mut db = UserDatabase::new();
    db.add_user("alice", "x=1; __utmv=1.|6=user_id=55=1");
    db.add_user("bob", "x=1");
    assert_eq!(db.user_id_of("alice"), Ok(55));
    assert_eq!(db.user_id_of("bob"), Err(DbError::NoUserIdInCookie));
    assert_eq!(db.user_id_of("carol"), Err(DbError::NoSuchUser));
    assert_eq!(DbError::NoSuchUser.message(), "No such user in database !");
}

#[test]
fn cookie_retrieval() {
    let mut db = UserDatabase::new();
    db.add_user("alice", "a=1");
    assert_eq!(retrieve_cookie(&db, None), Ok(None));
    assert_eq!(retrieve_cookie(&db, Some("alice".to_string())), Ok(Some("a=1".to_string())));
    assert_eq!(retrieve_cookie(&db, Some("bob".to_string())), Err(DbError::NoSuchUser));
    db.set_default("alice".to_string()).unwrap();
    assert_eq!(retrieve_cookie(&db, None), Ok(Some("a=1".to_string())));
}

#[test]
fn store_keeps_names_unique() {
    let mut db = UserDatabase::new();
    db.add_user("alice", "a=1");
    db.add_user("bob", "b=1");
    db.add_user("alice", "a=2");
    db.add_user("bob", "b=2");
    assert_eq!(db.user_names(), vec!["alice".to_string(), "bob".to_string()]);
    db.remove_user("alice").unwrap();
    assert_eq!(db.user_names(), vec!["bob".to_string()]);
}
