use realworld::auth_token::{AuthRejection, AuthToken};
use realworld::config::{decimal, DatabaseConfig, HttpConfig, Secret};
use realworld::error::AppError;
use realworld::field::{insert_statement, Articles, IndexedArticleField, IndexedUserField, UserKey};

#[test]
fn bearer_token_is_taken_from_the_header() {
    let token = AuthToken::from_header(Some("Bearer abc.def.ghi")).ok().unwrap();
    assert_eq!(token.value(), "abc.def.ghi");
    assert_eq!(AuthToken::from_header(Some("Bearer ")).ok().unwrap().value(), "");
    let spaced = AuthToken::from_header(Some("Bearer  x y")).ok().unwrap();
    assert_eq!(spaced.value(), " x y");
}

#[test]
fn missing_header_is_rejected() {
    let r = AuthToken::from_header(None).err().unwrap();
    assert_eq!(r, AuthRejection::MissingHeader);
    assert_eq!(r.status_code(), 401);
    assert_eq!(r.message(), "Missing Authorization header");
}

#[test]
fn header_without_bearer_prefix_is_rejected() {
    for text in ["", "Bearer", "bearer abc", "Basic abc", " Bearer abc", "abc"] {
        let r = AuthToken::from_header(Some(text)).err().unwrap();
        assert_eq!(r, AuthRejection::InvalidBearer);
        assert_eq!(r.status_code(), 401);
        assert_eq!(r.message(), "Invalid Bearer token");
    }
}

#[test]
fn http_url_is_host_and_port() {
    let config = HttpConfig { host: "0.0.0.0".to_string(), port: 8080 };
    assert_eq!(config.url(), "0.0.0.0:8080");
    let config = HttpConfig { host: "localhost".to_string(), port: 0 };
    assert_eq!(config.url(), "localhost:0");
}

#[test]
fn decimal_writes_every_port() {
    assert_eq!(decimal(0), "0");
    assert_eq!(decimal(7), "7");
    assert_eq!(decimal(10), "10");
    assert_eq!(decimal(909), "909");
    assert_eq!(decimal(65535), "65535");
    for n in [1u16, 19, 100, 1234, 40000] {
        assert_eq!(decimal(n), n.to_string());
    }
}

#[test]
fn connection_url_names_every_part() {
    let config = DatabaseConfig {
        user: "app".to_string(),
        database: "realworld".to_string(),
        password: Secret::new("pw".to_string()),
        address: "db:5432".to_string(),
        max_connections: 5,
    };
    assert_eq!(config.connection_url(), "postgresql://app:pw@db:5432/realworld");
}

#[test]
fn errors_map_to_status_and_message() {
    let cases = [
        (AppError::NotFound, 404, "Not found", "Resource not found"),
        (AppError::Unauthorized, 401, "Unauthorized", "Unauthorized"),
        (AppError::BadRequest("bad id".to_string()), 422, "bad id", "Bad request: bad id"),
        (AppError::Conflict("taken".to_string()), 409, "taken", "Conflict: taken"),
        (AppError::Db("connection refused".to_string()), 500, "Database error", "Database error"),
        (AppError::Other("boom".to_string()), 500, "Internal server error", "Internal error: boom"),
    ];
    for (error, status, message, text) in cases {
        assert_eq!(error.status_code(), status);
        assert_eq!(error.public_message(), message);
        assert_eq!(error.describe(), text);
    }
}

#[test]
fn article_fields_name_their_columns() {
    assert_eq!(IndexedArticleField::Slug.to_field_name(), (Articles::Table, Articles::Slug));
    assert_eq!(IndexedArticleField::Id.to_field_name(), (Articles::Table, Articles::Id));
}

#[test]
fn user_fields_name_their_columns() {
    assert_eq!(IndexedUserField::Email.column(), "email");
    assert_eq!(IndexedUserField::Username.column(), "username");
    assert_eq!(IndexedUserField::Id.column(), "id");
    assert_eq!(UserKey::Id(1).field(), IndexedUserField::Id);
    assert_eq!(UserKey::Email("a@x.com".to_string()).field(), IndexedUserField::Email);
    assert_eq!(UserKey::Username("alice".to_string()).field(), IndexedUserField::Username);
}

#[test]
fn secret_gives_its_text_only_when_asked() {
    let secret = Secret::new("default_pepper".to_string());
    assert_eq!(secret.expose(), "default_pepper");
    assert_eq!(secret.clone().expose(), "default_pepper");
}

#[test]
fn lookup_statement_takes_its_column_from_the_selector() {
    assert_eq!(
        IndexedUserField::Email.select_statement(),
        "SELECT id, email, username, password_hash, bio, image FROM users WHERE email = $1"
    );
    assert_eq!(
        IndexedUserField::Username.select_statement(),
        "SELECT id, email, username, password_hash, bio, image FROM users WHERE username = $1"
    );
    assert_eq!(
        IndexedUserField::Id.select_statement(),
        "SELECT id, email, username, password_hash, bio, image FROM users WHERE id = $1"
    );
    assert!(insert_statement().starts_with("INSERT INTO users (email, username, password_hash)"));
}
