use daily_bonus::auth::{authn_status_outcome, extract_authn_token, AuthHeaderFailure, TokenAuthnFailure};
use daily_bonus::calendar::CivilDate;
use daily_bonus::engine::RedisFailure;
use daily_bonus::payout::{daily_bonus_request, payout_amount, payout_status_outcome, PayoutFailure, PayoutRequestBody};
use daily_bonus::responses::{
    auth_header_failure_response, claim_failure_status, payout_failure_status,
    token_failure_response, CheckResponse, MessageResponse, StreakResponse,
};

#[test]
fn bearer_token_is_extracted() {
    assert_eq!(extract_authn_token(Some("Bearer abc.def")), Ok(String::from("abc.def")));
    assert_eq!(extract_authn_token(Some("Bearer ")), Ok(String::new()));
    assert_eq!(extract_authn_token(Some("Bearer\ta b")), Err(AuthHeaderFailure::NoPrefix));
}

#[test]
fn missing_header_is_not_found() {
    assert_eq!(extract_authn_token(None), Err(AuthHeaderFailure::NotFound));
}

#[test]
fn header_without_prefix_is_rejected() {
    assert_eq!(extract_authn_token(Some("Basic abc")), Err(AuthHeaderFailure::NoPrefix));
    assert_eq!(extract_authn_token(Some("bearer abc")), Err(AuthHeaderFailure::NoPrefix));
    assert_eq!(extract_authn_token(Some("Bear")), Err(AuthHeaderFailure::NoPrefix));
}

#[test]
fn header_with_invisible_characters_is_unparseable() {
    assert_eq!(extract_authn_token(Some("Bearer ab\u{7f}")), Err(AuthHeaderFailure::Nonparceable));
    assert_eq!(extract_authn_token(Some("Bearer \u{fffd}")), Err(AuthHeaderFailure::Nonparceable));
    assert_eq!(extract_authn_token(Some("Bearer a\nb")), Err(AuthHeaderFailure::Nonparceable));
}

#[test]
fn auth_header_failure_messages() {
    assert_eq!(AuthHeaderFailure::Nonparceable.message(), "Authorization header value could not be parsed.");
    assert_eq!(AuthHeaderFailure::NotFound.message(), "Authorization header is missing.");
    assert_eq!(AuthHeaderFailure::NoPrefix.message(), "Authorization header missing \"Bearer \" prefix.");
}

#[test]
fn authn_status_decides() {
    assert_eq!(authn_status_outcome(200), Ok(()));
    assert_eq!(authn_status_outcome(401), Err(TokenAuthnFailure::BadToken));
    assert_eq!(authn_status_outcome(500), Err(TokenAuthnFailure::BadToken));
    assert_eq!(
        TokenAuthnFailure::RequestFailed.message(),
        "Could not reach the player microservice to authenticate token."
    );
    assert_eq!(
        TokenAuthnFailure::BadToken.message(),
        "The provided token could not be used to authenticate the player."
    );
}

#[test]
fn payout_amount_is_128_per_day() {
    assert_eq!(payout_amount(1), Some(128));
    assert_eq!(payout_amount(3), Some(384));
    assert_eq!(payout_amount(0), Some(0));
    assert_eq!(payout_amount(33554431), Some(4294967168));
    assert_eq!(payout_amount(33554432), None);
}

#[test]
fn payout_request_names_the_day() {
    let d = CivilDate::new(2024, 3, 7).unwrap();
    let body = daily_bonus_request(2, &d).unwrap();
    assert_eq!(body.amount, 256);
    assert_eq!(body.reason, "DAILY_BONUS DATE=2024-03-07");
    assert!(daily_bonus_request(u32::MAX, &d).is_none());
    let b = PayoutRequestBody::new(5, "why");
    assert_eq!(b.amount, 5);
    assert_eq!(b.reason, "why");
}

#[test]
fn payout_status_decides() {
    assert!(payout_status_outcome(200).is_ok());
    assert!(matches!(payout_status_outcome(401), Err(PayoutFailure::Unauthorized)));
    match payout_status_outcome(409) {
        Err(PayoutFailure::Internal(m)) => assert_eq!(m, "This should not happen for a point increase."),
        _ => panic!("expected an internal failure"),
    }
    match payout_status_outcome(502) {
        Err(PayoutFailure::Internal(m)) => assert_eq!(m, "Internal server error with payout service."),
        _ => panic!("expected an internal failure"),
    }
    assert_eq!(PayoutFailure::RequestFailed.message(), "Could not reach the currency microservice.");
    assert_eq!(PayoutFailure::Unauthorized.message(), "Token authentication failed.");
    assert_eq!(PayoutFailure::Internal(String::from("x")).message(), "x");
}

#[test]
fn failure_statuses() {
    assert_eq!(claim_failure_status(&RedisFailure::Conflict), 409);
    assert_eq!(claim_failure_status(&RedisFailure::Query(String::from("down"))), 500);
    assert_eq!(claim_failure_status(&RedisFailure::StreakLimit), 500);
    assert_eq!(payout_failure_status(&PayoutFailure::Unauthorized), 401);
    assert_eq!(payout_failure_status(&PayoutFailure::RequestFailed), 500);
    assert_eq!(payout_failure_status(&PayoutFailure::Internal(String::from("x"))), 500);
    let (s, m) = auth_header_failure_response(&AuthHeaderFailure::NotFound);
    assert_eq!(s, 401);
    assert_eq!(m.message, "Authorization header is missing.");
    let (s, m) = token_failure_response(&TokenAuthnFailure::BadToken);
    assert_eq!(s, 401);
    assert_eq!(m.message, "The provided token could not be used to authenticate the player.");
}

#[test]
fn responses_hold_their_values() {
    assert_eq!(MessageResponse::new("hi").message, "hi");
    let c = CheckResponse::new((true, 4));
    assert!(c.available);
    assert_eq!(c.streak, 4);
    assert_eq!(StreakResponse::new(9).streak, 9);
}
