use auth_core::dtos::{LoginUserDto, RegisterUserDto};
use auth_core::service::{
    handle_login, handle_register, handle_register_admin, list_users, register_admin_user,
};
use auth_core::store::UserStore;

fn ada() -> RegisterUserDto {
    RegisterUserDto {
        name: "Ada".to_string(),
        email: "ada@x.io".to_string(),
        password: "secret1".to_string(),
        password_confirm: "secret1".to_string(),
    }
}

#[test]
fn register_end_to_end() {
    let mut store = UserStore::new();
    let response = handle_register(&mut store, &ada()).unwrap();
    assert_eq!(response.status, "success");
    assert_eq!(response.data.user.email, "ada@x.io");
    assert_eq!(response.data.user.name, "Ada");
    assert_eq!(response.data.user.role, "user");
    assert_eq!(response.data.user.id, "0");

    // repeating the same call is refused as a uniqueness violation
    let second = handle_register(&mut store, &ada()).unwrap_err();
    assert_eq!(second.status, 409);
    assert_eq!(second.message, "Email Already Exists, Please use another email!");
    let (code, body) = second.into_response_parts();
    assert_eq!(code, 409);
    assert_eq!(body.status, "fail");
    assert_eq!(store.len(), 1);
}

#[test]
fn register_rejects_invalid_payload_with_400() {
    let mut store = UserStore::new();
    let mut dto = ada();
    dto.password_confirm = "different".to_string();
    let err = handle_register(&mut store, &dto).unwrap_err();
    assert_eq!(err.status, 400);
    assert_eq!(store.len(), 0);
}

#[test]
fn login_with_wrong_password_is_unauthorized() {
    let mut store = UserStore::new();
    handle_register(&mut store, &ada()).unwrap();
    let dto = LoginUserDto {
        email: "ada@x.io".to_string(),
        password: "wrongpass".to_string(),
    };
    let err = handle_login(&store, &dto).unwrap_err();
    assert_eq!(err.status, 401);
    assert_eq!(err.message, "Email or Password is wrong");
}

#[test]
fn login_with_unknown_email_is_unauthorized() {
    let store = UserStore::new();
    let dto = LoginUserDto {
        email: "nobody@x.io".to_string(),
        password: "secret1".to_string(),
    };
    let err = handle_login(&store, &dto).unwrap_err();
    assert_eq!(err.status, 401);
    assert_eq!(err.message, "Email or Password is wrong");
}

#[test]
fn login_with_right_password_returns_the_record() {
    let mut store = UserStore::new();
    handle_register(&mut store, &ada()).unwrap();
    let dto = LoginUserDto {
        email: "ada@x.io".to_string(),
        password: "secret1".to_string(),
    };
    let user = handle_login(&store, &dto).unwrap();
    assert_eq!(user.email, "ada@x.io");
    assert_eq!(user.name, "Ada");
}

#[test]
fn login_rejects_invalid_payload_with_400() {
    let store = UserStore::new();
    let dto = LoginUserDto {
        email: "not-an-email".to_string(),
        password: "secret1".to_string(),
    };
    let err = handle_login(&store, &dto).unwrap_err();
    assert_eq!(err.status, 400);
}

#[test]
fn list_users_pages_and_counts() {
    let mut store = UserStore::new();
    for (name, email) in [("Ada", "ada@x.io"), ("Grace", "grace@x.io"), ("Edsger", "edsger@x.io")] {
        let dto = RegisterUserDto {
            name: name.to_string(),
            email: email.to_string(),
            password: "secret1".to_string(),
            password_confirm: "secret1".to_string(),
        };
        handle_register(&mut store, &dto).unwrap();
    }
    let first = list_users(&store, 1, 2).unwrap();
    assert_eq!(first.status, "success");
    assert_eq!(first.results, 2);
    assert_eq!(first.users.len(), 2);
    assert_eq!(first.users[0].email, "ada@x.io");
    assert_eq!(first.users[1].email, "grace@x.io");
    let second = list_users(&store, 2, 2).unwrap();
    assert_eq!(second.results, 1);
    assert_eq!(second.users[0].email, "edsger@x.io");
    let empty = list_users(&store, 9, 2).unwrap();
    assert_eq!(empty.results, 0);
}

#[test]
fn admin_registration_forces_admin_role() {
    let mut store = UserStore::new();
    let response = register_admin_user(&mut store, &ada()).unwrap();
    assert_eq!(response.data.user.role, "admin");
}

#[test]
fn admin_registration_flow_validates_and_checks_uniqueness() {
    let mut store = UserStore::new();
    let response = handle_register_admin(&mut store, &ada()).unwrap();
    assert_eq!(response.data.user.role, "admin");
    let repeat = handle_register_admin(&mut store, &ada()).unwrap_err();
    assert_eq!(repeat.status, 409);
    let mut bad = ada();
    bad.email = "nope".to_string();
    let err = handle_register_admin(&mut store, &bad).unwrap_err();
    assert_eq!(err.status, 400);
}
