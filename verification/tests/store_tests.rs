use auth_core::error::ErrorMessage;
use auth_core::models::UserRole;
use auth_core::password::hash;
use auth_core::store::UserStore;

#[test]
fn save_user_populates_the_record() {
    let mut store = UserStore::new();
    let hashed = hash("secret1").unwrap();
    let user = store
        .save_user("Ada", "ada@x.io", &hashed)
        .unwrap();
    assert_eq!(user.id, "0");
    assert_eq!(user.name, "Ada");
    assert_eq!(user.email, "ada@x.io");
    assert_eq!(user.password, hashed);
    assert_eq!(user.role, UserRole::User);
    assert_eq!(user.photo, "");
    assert!(!user.verified);
    assert_eq!(user.created_at, Some(0));
    assert_eq!(user.updated_at, Some(0));
    let second = store
        .save_user("Grace", "grace@x.io", &hashed)
        .unwrap();
    assert_eq!(second.id, "1");
    assert_eq!(second.created_at, Some(1));
}

#[test]
fn save_admin_user_forces_admin_role() {
    let mut store = UserStore::new();
    let hashed = hash("secret1").unwrap();
    let user = store
        .save_admin_user("Root", "root@x.io", &hashed)
        .unwrap();
    assert_eq!(user.role, UserRole::Admin);
}

#[test]
fn duplicate_email_is_refused() {
    let mut store = UserStore::new();
    let hashed = hash("secret1").unwrap();
    store.save_user("Ada", "ada@x.io", &hashed).unwrap();
    let second = store.save_user("Other", "ada@x.io", &hashed);
    assert_eq!(second.unwrap_err(), ErrorMessage::EmailExists);
    // and the refusal maps to the uniqueness response
    let http = ErrorMessage::EmailExists.to_http_error();
    assert_eq!(http.status, 409);
    assert_eq!(http.message, "Email Already Exists, Please use another email!");
    assert_eq!(store.len(), 1);
}

#[test]
fn get_user_miss_is_none_not_an_error() {
    let mut store = UserStore::new();
    let hashed = hash("secret1").unwrap();
    store.save_user("Ada", "ada@x.io", &hashed).unwrap();
    let missing = store.get_user(Some("999"), None, None).unwrap();
    assert!(missing.is_none());
    let missing = store.get_user(None, None, Some("nobody@x.io")).unwrap();
    assert!(missing.is_none());
}

#[test]
fn get_user_finds_by_each_selector() {
    let mut store = UserStore::new();
    let hashed = hash("secret1").unwrap();
    store.save_user("Ada", "ada@x.io", &hashed).unwrap();
    store.save_user("Grace", "grace@x.io", &hashed).unwrap();
    let by_id = store.get_user(Some("1"), None, None).unwrap().unwrap();
    assert_eq!(by_id.email, "grace@x.io");
    let by_name = store.get_user(None, Some("Ada"), None).unwrap().unwrap();
    assert_eq!(by_name.email, "ada@x.io");
    let by_email = store
        .get_user(None, None, Some("grace@x.io"))
        .unwrap()
        .unwrap();
    assert_eq!(by_email.name, "Grace");
}

#[test]
fn get_user_by_name_takes_earliest_created() {
    let mut store = UserStore::new();
    let hashed = hash("secret1").unwrap();
    store.save_user("Ada", "first@x.io", &hashed).unwrap();
    store.save_user("Ada", "second@x.io", &hashed).unwrap();
    let found = store.get_user(None, Some("Ada"), None).unwrap().unwrap();
    assert_eq!(found.email, "first@x.io");
}

#[test]
fn get_users_pages_in_creation_order() {
    let mut store = UserStore::new();
    let hashed = hash("secret1").unwrap();
    store.save_user("A", "a@x.io", &hashed).unwrap();
    store.save_user("B", "b@x.io", &hashed).unwrap();
    store.save_user("C", "c@x.io", &hashed).unwrap();
    let first = store.get_users(1, 2).unwrap();
    assert_eq!(first.len(), 2);
    assert_eq!(first[0].email, "a@x.io");
    assert_eq!(first[1].email, "b@x.io");
    let second = store.get_users(2, 2).unwrap();
    assert_eq!(second.len(), 1);
    assert_eq!(second[0].email, "c@x.io");
    let far = store.get_users(5, 2).unwrap();
    assert!(far.is_empty());
    let all = store.get_users(1, 50).unwrap();
    assert_eq!(all.len(), 3);
}
