use backend::errors::AppError;
use backend::auth::password::PasswordError;

fn shown(error: AppError) -> (u16, String) {
    let response = error.into_response();
    (response.status, response.message)
}

#[test]
fn internal_error_is_500() {
    assert_eq!(shown(AppError::InternalServerError), (500, "Internal Server Error".to_string()));
}

#[test]
fn errors_with_a_message_show_it() {
    assert_eq!(shown(AppError::NotFound("no such page".into())), (404, "no such page".to_string()));
    assert_eq!(shown(AppError::BadRequest("bad body".into())), (400, "bad body".to_string()));
    assert_eq!(shown(AppError::Unauthorized("nope".into())), (401, "nope".to_string()));
    assert_eq!(shown(AppError::Forbidden("not yours".into())), (403, "not yours".to_string()));
    assert_eq!(shown(AppError::Conflict("taken".into())), (409, "taken".to_string()));
}

#[test]
fn component_errors_show_a_fixed_text() {
    assert_eq!(shown(AppError::Sqlx), (500, "Database error".to_string()));
    assert_eq!(shown(AppError::Jwt), (500, "JWT processing error".to_string()));
    assert_eq!(shown(AppError::Redis), (500, "Cache error".to_string()));
    assert_eq!(shown(AppError::Config), (500, "Configuration error".to_string()));
    assert_eq!(
        shown(AppError::Password(PasswordError::Argon2Error)),
        (500, "Password error".to_string())
    );
    assert_eq!(shown(AppError::Uuid), (400, "UUID parsing error".to_string()));
    assert_eq!(shown(AppError::ParseDuration), (500, "Duration parsing error".to_string()));
}

#[test]
fn refusal_has_the_one_message() {
    assert_eq!(shown(AppError::unauthorized()), (401, "Invalid credentials".to_string()));
}

#[test]
fn second_registration_is_shown_as_a_conflict() {
    assert_eq!(shown(AppError::conflict()), (409, "Identity already registered".to_string()));
}

#[test]
fn empty_message_is_shown_as_it_is() {
    assert_eq!(shown(AppError::BadRequest(String::new())), (400, String::new()));
}
