use betterbe_core::dates::{format_date, parse_date, Date};
use betterbe_core::error::ApiError;
use betterbe_core::ids::u64_dec_string;
use betterbe_core::models::goal::GoalStatus;
use betterbe_core::models::habit::{HabitType, TargetDirection};
use betterbe_core::auth::extract_bearer_token;
use betterbe_core::models::user::{AuthProvider, User, UserProfile};

#[test]
fn dates_parse_and_render_like_chrono() {
    let d = parse_date(&String::from("2024-03-07")).unwrap();
    assert_eq!(d, Date { year: 2024, month: 3, day: 7 });
    assert_eq!(format_date(&d), "2024-03-07");

    // chrono's flexible parse, canonical rendering
    let d2 = parse_date(&String::from("2024-3-7")).unwrap();
    assert_eq!(d2, d);

    assert!(parse_date(&String::from("2023-02-29")).is_none());
    assert!(parse_date(&String::from("2024-02-29")).is_some());
    assert!(parse_date(&String::from("nope")).is_none());
    assert!(parse_date(&String::from("2024-13-01")).is_none());

    // cross-check against chrono directly
    let nd: chrono::NaiveDate = "1999-12-31".parse().unwrap();
    let ours = parse_date(&String::from("1999-12-31")).unwrap();
    assert_eq!(format_date(&ours), nd.to_string());
}

#[test]
fn canonical_ids_render_in_decimal() {
    assert_eq!(u64_dec_string(0), "0");
    assert_eq!(u64_dec_string(7), "7");
    assert_eq!(u64_dec_string(1234567890), "1234567890");
    assert_eq!(u64_dec_string(u64::MAX), "18446744073709551615");
}

#[test]
fn entity_labels_parse_and_render_both_ways() {
    assert_eq!(HabitType::parse(&String::from("binary")), Some(HabitType::Binary));
    assert_eq!(HabitType::parse(&String::from("numeric")), Some(HabitType::Numeric));
    assert_eq!(HabitType::parse(&String::from("Binary")), None);
    assert_eq!(HabitType::Numeric.label(), "numeric");

    assert_eq!(
        TargetDirection::parse(&String::from("at_most")),
        Some(TargetDirection::AtMost)
    );
    assert_eq!(TargetDirection::parse(&String::from("atmost")), None);
    assert_eq!(TargetDirection::Exactly.label(), "exactly");

    assert_eq!(GoalStatus::parse(&String::from("abandoned")), Some(GoalStatus::Abandoned));
    assert_eq!(GoalStatus::parse(&String::from("done")), None);
    assert_eq!(GoalStatus::Achieved.label(), "achieved");
}

#[test]
fn error_status_codes_and_messages() {
    assert_eq!(ApiError::Unauthorized.status_code(), 401);
    assert_eq!(ApiError::Unauthorized.response_message(), "Authentication required");
    assert_eq!(ApiError::Forbidden.status_code(), 403);
    assert_eq!(ApiError::NotFound.status_code(), 404);
    assert_eq!(ApiError::BadRequest(String::from("bad")).status_code(), 400);
    assert_eq!(ApiError::BadRequest(String::from("bad")).response_message(), "bad");
    assert_eq!(ApiError::Conflict(String::from("taken")).status_code(), 409);
    // internal detail is never leaked
    assert_eq!(ApiError::Database(String::from("secret detail")).status_code(), 500);
    assert_eq!(
        ApiError::Database(String::from("secret detail")).response_message(),
        "Database error"
    );
    assert_eq!(ApiError::Jwt(String::from("expired")).response_message(), "Invalid token");
    assert_eq!(ApiError::Internal(String::from("boom")).status_code(), 500);
    assert_eq!(ApiError::OAuth(String::from("denied")).response_message(), "denied");
}

#[test]
fn bearer_token_extraction() {
    assert_eq!(extract_bearer_token("Bearer abc.def").unwrap(), "abc.def");
    assert_eq!(extract_bearer_token("Bearer ").unwrap(), "");
    assert!(matches!(extract_bearer_token("Basic abc"), Err(ApiError::Unauthorized)));
    assert!(matches!(extract_bearer_token("Bearer"), Err(ApiError::Unauthorized)));
    assert!(matches!(extract_bearer_token(""), Err(ApiError::Unauthorized)));
}

#[test]
fn user_profile_keeps_the_public_fields() {
    let user = User {
        id: 9,
        email: String::from("ada@example.com"),
        name: Some(String::from("Ada")),
        avatar_url: None,
        provider: AuthProvider::Google,
        provider_id: String::from("google-1"),
        cloud_sync_enabled: true,
        created_at: 1,
        updated_at: 2,
    };
    let profile = UserProfile::from(user);
    assert_eq!(profile.id, 9);
    assert_eq!(profile.email, "ada@example.com");
    assert_eq!(profile.name.as_deref(), Some("Ada"));
    assert_eq!(profile.avatar_url, None);
    assert!(profile.cloud_sync_enabled);
}
