use realworld::error::AppError;
use realworld::jwt::{Claims, JwtGenerator, TOKEN_VALIDITY_SECONDS};

const ID: u128 = 0x1234_5678_9abc_def0_0fed_cba9_8765_4321;
const ID_TEXT: &str = "12345678-9abc-def0-0fed-cba987654321";
const NOW: i64 = 1_700_000_000;

fn generator() -> JwtGenerator {
    JwtGenerator::new("a signing secret".to_string())
}

#[test]
fn validity_window_is_thirty_days() {
    assert_eq!(TOKEN_VALIDITY_SECONDS, 30 * 24 * 60 * 60);
}

#[test]
fn issued_token_carries_subject_and_window() {
    let jwt = generator();
    let token = jwt.issue(ID, NOW).unwrap();
    let claims = jwt.verify_at(&token, NOW).unwrap();
    assert_eq!(claims.sub, ID_TEXT);
    assert_eq!(claims.iat, NOW);
    assert_eq!(claims.exp, 1_702_592_000);
}

#[test]
fn token_has_three_segments() {
    let token = generator().issue(ID, NOW).unwrap();
    assert_eq!(token.split('.').count(), 3);
    assert_ne!(token, ID_TEXT);
    // the default header: HS256, JWT
    assert!(token.starts_with("eyJ0eXAiOiJKV1QiLCJhbGciOiJIUzI1NiJ9."));
}

#[test]
fn issue_is_a_function_of_its_inputs() {
    let jwt = generator();
    assert_eq!(jwt.issue(ID, NOW).unwrap(), jwt.issue(ID, NOW).unwrap());
    assert_ne!(jwt.issue(ID, NOW).unwrap(), jwt.issue(ID, NOW + 1).unwrap());
    assert_ne!(jwt.issue(ID, NOW).unwrap(), jwt.issue(ID + 1, NOW).unwrap());
}

#[test]
fn token_is_valid_up_to_its_expiry() {
    let jwt = generator();
    let token = jwt.issue(ID, NOW).unwrap();
    let exp = NOW + TOKEN_VALIDITY_SECONDS;
    assert!(jwt.verify_at(&token, exp - 1).is_ok());
    assert!(jwt.verify_at(&token, exp).is_ok());
    assert!(matches!(jwt.verify_at(&token, exp + 1), Err(AppError::Unauthorized)));
    assert!(matches!(jwt.verify_at(&token, i64::MAX), Err(AppError::Unauthorized)));
}

#[test]
fn token_under_another_secret_is_unauthorized() {
    let token = generator().issue(ID, NOW).unwrap();
    let other = JwtGenerator::new("another secret".to_string());
    assert!(matches!(other.verify_at(&token, NOW), Err(AppError::Unauthorized)));
}

#[test]
fn mutated_token_is_unauthorized() {
    let jwt = generator();
    let token = jwt.issue(ID, NOW).unwrap();
    let bytes = token.as_bytes();
    for i in 0..bytes.len() {
        let mut changed = bytes.to_vec();
        changed[i] = if changed[i] == b'A' { b'B' } else { b'A' };
        let text = String::from_utf8(changed).unwrap();
        assert!(
            matches!(jwt.verify_at(&text, NOW), Err(AppError::Unauthorized)),
            "byte {} changed and the token still verified",
            i
        );
    }
}

#[test]
fn malformed_token_is_unauthorized() {
    let jwt = generator();
    assert!(matches!(jwt.verify_at("", NOW), Err(AppError::Unauthorized)));
    assert!(matches!(jwt.verify_at("mock.jwt.token", NOW), Err(AppError::Unauthorized)));
    assert!(matches!(jwt.verify_token("a.b"), Err(AppError::Unauthorized)));
}

#[test]
fn generated_token_verifies_now() {
    let jwt = generator();
    let token = jwt.generate_token(ID).unwrap();
    let claims = jwt.verify_token(&token).unwrap();
    assert_eq!(claims.sub, ID_TEXT);
    assert_eq!(claims.exp - claims.iat, 2_592_000);
    assert_eq!(JwtGenerator::subject_id(&claims).unwrap(), ID);
}

#[test]
fn subject_that_is_no_id_is_a_bad_request() {
    let claims = Claims { sub: "nobody".to_string(), exp: 2, iat: 1 };
    match JwtGenerator::subject_id(&claims) {
        Err(AppError::BadRequest(m)) => assert_eq!(m, "Invalid user ID in token"),
        other => panic!("unexpected: {:?}", other),
    }
    assert_eq!(JwtGenerator::subject_id(&claims).unwrap_err().status_code(), 422);
    let zero = Claims { sub: "00000000-0000-0000-0000-00000000002a".to_string(), exp: 2, iat: 1 };
    assert_eq!(JwtGenerator::subject_id(&zero).unwrap(), 42);
}

#[test]
fn authenticate_gives_the_subject_id() {
    let jwt = generator();
    let token = jwt.issue(ID, NOW).unwrap();
    assert_eq!(jwt.authenticate_at(&token, NOW).unwrap(), ID);
    assert!(matches!(
        jwt.authenticate_at(&token, NOW + TOKEN_VALIDITY_SECONDS + 1),
        Err(AppError::Unauthorized)
    ));
    assert!(matches!(jwt.authenticate("mock.jwt.token"), Err(AppError::Unauthorized)));
    let fresh = jwt.generate_token(ID).unwrap();
    assert_eq!(jwt.authenticate(&fresh).unwrap(), ID);
}

#[test]
fn every_issued_id_reads_back() {
    let jwt = generator();
    for id in [0u128, 1, 42, ID, u128::MAX] {
        let token = jwt.issue(id, NOW).unwrap();
        assert_eq!(jwt.authenticate_at(&token, NOW).unwrap(), id);
        assert_eq!(jwt.authenticate_at(&token, NOW + TOKEN_VALIDITY_SECONDS).unwrap(), id);
    }
}

#[test]
fn token_issued_at_the_epoch_verifies() {
    let jwt = generator();
    let token = jwt.issue(ID, -TOKEN_VALIDITY_SECONDS).unwrap();
    let claims = jwt.verify_at(&token, 0).unwrap();
    assert_eq!(claims.exp, 0);
    assert_eq!(claims.iat, -2_592_000);
    assert!(matches!(jwt.verify_at(&token, 1), Err(AppError::Unauthorized)));
}
