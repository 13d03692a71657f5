use captcha_jwt_auth::auth::Claims;
use captcha_jwt_auth::error::CJAError;
use captcha_jwt_auth::request_id::RequestID;
use captcha_jwt_auth::seal::Sealer;
use captcha_jwt_auth::service::{authorize, jwt_from_header, verify_and_issue};
use captcha_jwt_auth::JWT_TTL_SECONDS;

const NOW: u64 = 1_700_000_000;

fn test_sealer() -> Sealer {
    Sealer::new(vec![3u8; 32], vec![7u8; 24]).unwrap()
}

fn secret() -> Vec<u8> {
    b"signing-key".to_vec()
}

#[test]
fn scenario_full_challenge_lifecycle() {
    let sealer = test_sealer();
    let token = sealer.seal("7xQ2", 300, NOW);

    // correct answer, submitted immediately: a credential with the
    // thirty-minute expiry
    let jwt = verify_and_issue(&sealer, &secret(), "7xQ2", &token, 30, NOW)
        .expect("the correct answer within the window is owed a credential");
    let header = format!("Bearer {jwt}");
    let claims = authorize(&secret(), Some(&header), NOW).unwrap();
    assert_eq!(claims, Claims { exp: NOW + 1800 });

    // wrong answer against the same token
    assert_eq!(
        verify_and_issue(&sealer, &secret(), "wrong", &token, 30, NOW),
        Err(CJAError::CaptchaInvalid)
    );

    // correct answer after the 300-second window has passed
    assert_eq!(
        verify_and_issue(&sealer, &secret(), "7xQ2", &token, 30, NOW + 301),
        Err(CJAError::CaptchaExpired)
    );
}

#[test]
fn zero_ttl_challenge_expires_immediately() {
    let sealer = test_sealer();
    let token = sealer.seal("7xQ2", 0, NOW);
    assert_eq!(
        verify_and_issue(&sealer, &secret(), "7xQ2", &token, 30, NOW + 1),
        Err(CJAError::CaptchaExpired)
    );
}

#[test]
fn long_ttl_challenge_succeeds() {
    let sealer = test_sealer();
    let token = sealer.seal("7xQ2", 86_400, NOW);
    assert!(verify_and_issue(&sealer, &secret(), "7xQ2", &token, 30, NOW + 3600).is_ok());
}

#[test]
fn expired_with_correct_answer_is_expired_not_wrong() {
    let sealer = test_sealer();
    let token = sealer.seal("7xQ2", 10, NOW);
    assert_eq!(
        verify_and_issue(&sealer, &secret(), "7xQ2", &token, 30, NOW + 11),
        Err(CJAError::CaptchaExpired)
    );
}

#[test]
fn unexpired_with_wrong_answer_is_wrong_not_expired() {
    let sealer = test_sealer();
    let token = sealer.seal("7xQ2", 300, NOW);
    assert_eq!(
        verify_and_issue(&sealer, &secret(), "7xq2", &token, 30, NOW),
        Err(CJAError::CaptchaInvalid)
    );
}

#[test]
fn tampered_token_is_invalid_payload() {
    let sealer = test_sealer();
    assert_eq!(
        verify_and_issue(&sealer, &secret(), "7xQ2", &"@@@".to_string(), 30, NOW),
        Err(CJAError::InvalidPayload)
    );
}

#[test]
fn issued_credential_authorizes_until_its_expiry() {
    let sealer = test_sealer();
    let token = sealer.seal("ok", 300, NOW);
    let jwt = verify_and_issue(&sealer, &secret(), "ok", &token, 30, NOW).unwrap();
    let header = format!("Bearer {jwt}");
    // authorization is repeatable: no state is consumed
    assert!(authorize(&secret(), Some(&header), NOW + 100).is_ok());
    assert!(authorize(&secret(), Some(&header), NOW + 100).is_ok());
    assert_eq!(
        authorize(&secret(), Some(&header), NOW + JWT_TTL_SECONDS),
        Err(CJAError::JWTExpired)
    );
}

#[test]
fn missing_header_is_no_auth_header() {
    assert_eq!(jwt_from_header(None), Err(CJAError::NoAuthHeader));
    assert_eq!(authorize(&secret(), None, NOW), Err(CJAError::NoAuthHeader));
}

#[test]
fn header_without_bearer_scheme_is_invalid() {
    let basic = "Basic dXNlcjpwdw==".to_string();
    assert_eq!(jwt_from_header(Some(&basic)), Err(CJAError::InvalidAuthHeader));
    let short = "Bear".to_string();
    assert_eq!(jwt_from_header(Some(&short)), Err(CJAError::InvalidAuthHeader));
    let lower = "bearer abc".to_string();
    assert_eq!(jwt_from_header(Some(&lower)), Err(CJAError::InvalidAuthHeader));
}

#[test]
fn header_with_bearer_scheme_yields_the_credential() {
    let header = "Bearer abc.def.ghi".to_string();
    assert_eq!(jwt_from_header(Some(&header)), Ok("abc.def.ghi".to_string()));
    let empty = "Bearer ".to_string();
    assert_eq!(jwt_from_header(Some(&empty)), Ok(String::new()));
}

#[test]
fn repeated_bearer_prefix_is_stripped_entirely() {
    let doubled = "Bearer Bearer abc".to_string();
    assert_eq!(jwt_from_header(Some(&doubled)), Ok("abc".to_string()));
    let inner = "Bearer xBearer ".to_string();
    assert_eq!(jwt_from_header(Some(&inner)), Ok("xBearer ".to_string()));
}

#[test]
fn forged_bearer_credential_is_forbidden() {
    let header = "Bearer abc.def.ghi".to_string();
    assert_eq!(authorize(&secret(), Some(&header), NOW), Err(CJAError::Forbidden));
}

#[test]
fn error_names() {
    assert_eq!(CJAError::NotFound.name(), "NotFound");
    assert_eq!(CJAError::CaptchaExpired.name(), "CaptchaExpired");
    assert_eq!(CJAError::CaptchaInvalid.name(), "CaptchaInvalid");
    assert_eq!(CJAError::JWTExpired.name(), "JWTExpired");
    assert_eq!(CJAError::NoAuthHeader.name(), "NoAuthHeader");
    assert_eq!(CJAError::InvalidAuthHeader.name(), "InvalidAuthHeader");
    assert_eq!(CJAError::Forbidden.name(), "Forbidden");
    assert_eq!(CJAError::InvalidPayload.name(), "InvalidPayload");
    assert_eq!(CJAError::Unknown.name(), "Unknown");
}

#[test]
fn error_status_codes() {
    assert_eq!(CJAError::NotFound.status_code(), 404);
    assert_eq!(CJAError::CaptchaExpired.status_code(), 403);
    assert_eq!(CJAError::CaptchaInvalid.status_code(), 403);
    assert_eq!(CJAError::JWTExpired.status_code(), 403);
    assert_eq!(CJAError::NoAuthHeader.status_code(), 403);
    assert_eq!(CJAError::InvalidAuthHeader.status_code(), 403);
    assert_eq!(CJAError::Forbidden.status_code(), 403);
    assert_eq!(CJAError::InvalidPayload.status_code(), 400);
    assert_eq!(CJAError::Unknown.status_code(), 500);
}

#[test]
fn error_messages() {
    assert_eq!(CJAError::NotFound.message(), "Resource not Found");
    assert_eq!(CJAError::CaptchaExpired.message(), "Captcha expired");
    assert_eq!(CJAError::CaptchaInvalid.message(), "Captcha invalid");
    assert_eq!(CJAError::JWTExpired.message(), "Signature expired");
    assert_eq!(CJAError::NoAuthHeader.message(), "no auth header");
    assert_eq!(CJAError::InvalidAuthHeader.message(), "invalid auth header");
    assert_eq!(CJAError::Forbidden.message(), "Invalid token");
    assert_eq!(CJAError::InvalidPayload.message(), "Invalid payload");
    assert_eq!(CJAError::Unknown.message(), "Internal server error");
}

#[test]
fn error_response_carries_the_tables() {
    let r = CJAError::CaptchaInvalid.error_response();
    assert_eq!(r.code, 403);
    assert_eq!(r.error, "CaptchaInvalid");
    assert_eq!(r.message, "Captcha invalid");
    let r = CJAError::Unknown.error_response();
    assert_eq!(r.code, 500);
    assert_eq!(r.error, "Unknown");
    assert_eq!(r.message, "Internal server error");
}

#[test]
fn request_id_wraps_its_string() {
    let id = RequestID::new("f3b1".to_string());
    assert_eq!(id.0, "f3b1");
}
