use otp_core::mail::EmailError;
use otp_core::user::{User, UserError};

#[test]
fn user_new_normalizes_and_stamps() {
    let user = User::new(
        "  John@Example.COM ".to_string(),
        "password123".to_string(),
        42,
    )
    .expect("hashing an ordinary password must succeed");
    assert_eq!(user.email, "john@example.com");
    assert_eq!(user.is_verified, Some(false));
    assert_eq!(user.created_at, Some(42));
    assert_eq!(user.updated_at, Some(42));
    // The stored password is a bcrypt digest, not the input.
    assert_ne!(user.password, "password123");
    assert!(user.password.starts_with("$2"));
    assert!(bcrypt::verify("password123", &user.password).unwrap());
}

#[test]
fn user_with_hash_keeps_the_digest() {
    let user = User::with_hash("A@B.c", "digest-placeholder".to_string(), 7);
    assert_eq!(user.email, "a@b.c");
    assert_eq!(user.password, "digest-placeholder");
    assert_eq!(user.is_verified, Some(false));
    assert_eq!(user.created_at, Some(7));
    assert_eq!(user.updated_at, Some(7));
}

#[test]
fn user_error_is_comparable() {
    assert_eq!(UserError::HashError, UserError::HashError);
}

#[test]
fn email_error_messages() {
    assert_eq!(
        EmailError::ConfigError("missing SMTP_SERVER".to_string()).message(),
        "ConfigError: missing SMTP_SERVER"
    );
    assert_eq!(
        EmailError::ConnectionError("relay down".to_string()).message(),
        "ConnectionError: relay down"
    );
    assert_eq!(
        EmailError::TemplateError("no template".to_string()).message(),
        "TemplateError: no template"
    );
    assert_eq!(
        EmailError::SendError("refused".to_string()).message(),
        "SendError: refused"
    );
}
