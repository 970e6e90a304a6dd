use auth_core::error::{u64_to_dec, ErrorMessage, HttpError};

#[test]
fn decimal_rendering_exact_values() {
    assert_eq!(u64_to_dec(0), "0");
    assert_eq!(u64_to_dec(7), "7");
    assert_eq!(u64_to_dec(10), "10");
    assert_eq!(u64_to_dec(64), "64");
    assert_eq!(u64_to_dec(12345), "12345");
    assert_eq!(u64_to_dec(u64::MAX), "18446744073709551615");
}

#[test]
fn fixed_messages_exact() {
    assert_eq!(
        ErrorMessage::ServerError.to_str(),
        "Server Error. Please try again!"
    );
    assert_eq!(
        ErrorMessage::EmailExists.to_str(),
        "Email Already Exists, Please use another email!"
    );
    assert_eq!(
        ErrorMessage::WrongCredentials.to_str(),
        "Email or Password is wrong"
    );
    assert_eq!(
        ErrorMessage::InvalidToken.to_str(),
        "Email is Invalid!, Please login again"
    );
    assert_eq!(
        ErrorMessage::UserNoLongerExists.to_str(),
        "User belonging to this token does no longer exists"
    );
    assert_eq!(
        ErrorMessage::EmptyPassword.to_str(),
        "Password cannot be empty"
    );
    assert_eq!(
        ErrorMessage::HashingError.to_str(),
        "Error While Hashing password"
    );
    assert_eq!(
        ErrorMessage::InvalidHashingFormat.to_str(),
        "Invalid Password Hashing format"
    );
    assert_eq!(
        ErrorMessage::TokenNotProvided.to_str(),
        "You are not logged in, please provide a token"
    );
    assert_eq!(
        ErrorMessage::PermissionDenied.to_str(),
        "You are not authorized to perform this action"
    );
}

#[test]
fn interpolated_message_exact() {
    assert_eq!(
        ErrorMessage::ExceededMaxPasswordLength(64).to_str(),
        "Password must not be more than 64 characters"
    );
    assert_eq!(
        ErrorMessage::ExceededMaxPasswordLength(128).to_str(),
        "Password must not be more than 128 characters"
    );
}

#[test]
fn named_constructors_fix_their_status() {
    assert_eq!(HttpError::new("m".to_string(), 418).status, 418);
    assert_eq!(HttpError::server_error("m".to_string()).status, 500);
    assert_eq!(HttpError::bad_request("m".to_string()).status, 400);
    assert_eq!(
        HttpError::unique_constraint_violation("m".to_string()).status,
        409
    );
    assert_eq!(HttpError::unauthorized("m".to_string()).status, 401);
    assert_eq!(HttpError::bad_request("m".to_string()).message, "m");
}

#[test]
fn error_kinds_map_to_their_category() {
    assert_eq!(ErrorMessage::EmptyPassword.to_http_error().status, 400);
    assert_eq!(
        ErrorMessage::ExceededMaxPasswordLength(64).to_http_error().status,
        400
    );
    assert_eq!(ErrorMessage::WrongCredentials.to_http_error().status, 401);
    assert_eq!(ErrorMessage::InvalidToken.to_http_error().status, 401);
    assert_eq!(ErrorMessage::TokenNotProvided.to_http_error().status, 401);
    assert_eq!(ErrorMessage::PermissionDenied.to_http_error().status, 401);
    assert_eq!(ErrorMessage::EmailExists.to_http_error().status, 409);
    assert_eq!(ErrorMessage::HashingError.to_http_error().status, 500);
    assert_eq!(
        ErrorMessage::InvalidHashingFormat.to_http_error().status,
        500
    );
    assert_eq!(ErrorMessage::ServerError.to_http_error().status, 500);
    assert_eq!(ErrorMessage::UserNoLongerExists.to_http_error().status, 500);
    let mapped = ErrorMessage::WrongCredentials.to_http_error();
    assert_eq!(mapped.message, "Email or Password is wrong");
}

#[test]
fn render_keeps_known_status() {
    let (code, body) = HttpError::bad_request("bad input".to_string()).into_response_parts();
    assert_eq!(code, 400);
    assert_eq!(body.status, "fail");
    assert_eq!(body.message, "bad input");
    let (code, body) = HttpError::unauthorized("no".to_string()).into_response_parts();
    assert_eq!(code, 401);
    assert_eq!(body.status, "fail");
    assert_eq!(body.message, "no");
}

#[test]
fn render_falls_back_to_server_error_on_unknown_status() {
    let (code, body) = HttpError::new("teapot".to_string(), 418).into_response_parts();
    assert_eq!(code, 500);
    assert_eq!(body.status, "error");
    assert_eq!(body.message, "Server Error. Please try again!");
}
