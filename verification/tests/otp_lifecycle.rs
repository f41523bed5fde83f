use otp_core::email::{is_valid_email, normalize_email};
use otp_core::otp::{util_time, Otp, OtpError, OtpStore};

fn issue(store: &mut OtpStore, email: &str, now: u64) -> Otp {
    let otp = Otp::new(email.to_string(), now).expect("issuing a fresh code must succeed");
    otp.insert_otp(store).expect("the in-memory store cannot fail");
    otp
}

fn verify(store: &mut OtpStore, code: u32, email: &str, now: u64) -> bool {
    Otp::verify_otp(code, email.to_string(), now, store).expect("the in-memory store cannot fail")
}

#[test]
fn issue_code_range_and_expiry() {
    let otp = Otp::new("  User@Example.COM  ".to_string(), 1000).unwrap();
    assert!((100000..=999999).contains(&otp.code));
    assert_eq!(otp.email, "user@example.com");
    assert!(!otp.is_used);
    assert_eq!(otp.created_at, 1000);
    assert_eq!(otp.expired_at, otp.created_at + 600);
}

#[test]
fn verify_consumes_at_most_once() {
    let mut store = OtpStore::new();
    let otp = issue(&mut store, "user@example.com", 0);
    assert!(verify(&mut store, otp.code, "user@example.com", 500));
    assert!(!verify(&mut store, otp.code, "user@example.com", 500));
    assert!(!verify(&mut store, otp.code, "user@example.com", 501));
}

#[test]
fn verify_expired_is_false() {
    let mut store = OtpStore::new();
    let otp = issue(&mut store, "user@example.com", 0);
    // The record expires at 600; at and past that instant the correct,
    // never-used code is still refused.
    assert!(!verify(&mut store, otp.code, "user@example.com", 600));
    assert!(!verify(&mut store, otp.code, "user@example.com", 10_000));
    // The refusals above consumed nothing: just before expiry the code
    // still verifies.
    assert!(verify(&mut store, otp.code, "user@example.com", 599));
}

#[test]
fn verify_wrong_code_or_address_is_false() {
    let mut store = OtpStore::new();
    let otp = issue(&mut store, "user@example.com", 0);
    let wrong = if otp.code == 999999 { 100000 } else { otp.code + 1 };
    assert!(!verify(&mut store, wrong, "user@example.com", 100));
    assert!(!verify(&mut store, otp.code, "other@example.com", 100));
    assert!(verify(&mut store, otp.code, "user@example.com", 100));
}

#[test]
fn verify_normalizes_the_address() {
    let mut store = OtpStore::new();
    let otp = issue(&mut store, "User@Example.com", 0);
    assert!(verify(&mut store, otp.code, "  USER@EXAMPLE.COM ", 10));
}

#[test]
fn resend_supersedes_prior_codes() {
    let mut store = OtpStore::new();
    let first = Otp {
        email: "user@example.com".to_string(),
        code: 111111,
        is_used: false,
        created_at: 0,
        expired_at: 600,
    };
    let second = Otp {
        email: "user@example.com".to_string(),
        code: 222222,
        is_used: false,
        created_at: 10,
        expired_at: 610,
    };
    first.insert_otp(&mut store).unwrap();
    second.insert_otp(&mut store).unwrap();

    let (email, fresh_code) = Otp::update_otp("User@example.com ".to_string(), 20, &mut store)
        .expect("resend for a valid address must succeed");
    assert_eq!(email, "user@example.com");
    assert!((100000..=999999).contains(&fresh_code));

    // Every prior live record is superseded.
    if fresh_code != 111111 {
        assert!(!verify(&mut store, 111111, "user@example.com", 30));
    }
    if fresh_code != 222222 {
        assert!(!verify(&mut store, 222222, "user@example.com", 30));
    }
    // The fresh code verifies until used.
    assert!(verify(&mut store, fresh_code, "user@example.com", 30));
    assert!(!verify(&mut store, fresh_code, "user@example.com", 30));
}

#[test]
fn resend_leaves_other_addresses_alone() {
    let mut store = OtpStore::new();
    let other = issue(&mut store, "other@example.com", 0);
    let (_, _) = Otp::update_otp("user@example.com".to_string(), 0, &mut store).unwrap();
    assert!(verify(&mut store, other.code, "other@example.com", 100));
}

#[test]
fn racing_verifications_have_one_winner() {
    // The store serializes competing verifications of the same live
    // code; run the same submission three times at one instant.
    let mut store = OtpStore::new();
    let otp = issue(&mut store, "user@example.com", 0);
    let mut wins = 0;
    for _ in 0..3 {
        if verify(&mut store, otp.code, "user@example.com", 100) {
            wins += 1;
        }
    }
    assert_eq!(wins, 1);
}

#[test]
fn full_lifecycle_scenario() {
    let mut store = OtpStore::new();

    // Issue at t = 0: the record expires at 600.
    let first = issue(&mut store, "user@example.com", 0);
    assert_eq!(first.expired_at, 600);

    // Correct code at t = 500 verifies; the same call again does not.
    assert!(verify(&mut store, first.code, "user@example.com", 500));
    assert!(!verify(&mut store, first.code, "user@example.com", 500));

    // Issue again at t2 = 200; at t2 + 500 = 700 the second code still
    // verifies against its own window, while the first record is by now
    // both used and expired.
    let second = issue(&mut store, "user@example.com", 200);
    assert!(verify(&mut store, second.code, "user@example.com", 700));
    assert!(!verify(&mut store, first.code, "user@example.com", 700));
}

#[test]
fn issue_rejects_malformed_addresses() {
    for bad in [
        "",
        "user",
        "user@",
        "@example.com",
        "user@@example.com",
        "us er@example.com",
        "user@-example.com",
        "user@example-.com",
        "user@example..com",
        "user@.example.com",
        "user@example.com.",
        "user@exam_ple.com",
    ] {
        let r = Otp::new(bad.to_string(), 0);
        assert!(
            matches!(r, Err(OtpError::ValidationError)),
            "{:?} must be rejected",
            bad
        );
    }
}

#[test]
fn issue_accepts_plain_addresses() {
    for good in [
        "user@example.com",
        "user.name+tag@example-domain.co",
        "a@b",
        "odd!#$%&'*+/=?^_`{|}~-@strange.example",
    ] {
        assert!(Otp::new(good.to_string(), 0).is_ok(), "{:?} must be accepted", good);
    }
}

#[test]
fn issue_refuses_an_overflowing_expiry() {
    let r = Otp::new("user@example.com".to_string(), u64::MAX);
    assert!(matches!(r, Err(OtpError::ClockError)));
    let r2 = Otp::update_otp("user@example.com".to_string(), u64::MAX, &mut OtpStore::new());
    assert!(matches!(r2, Err(OtpError::ClockError)));
}

#[test]
fn resend_rejects_malformed_addresses() {
    let mut store = OtpStore::new();
    let otp = issue(&mut store, "user@example.com", 0);
    let r = Otp::update_otp("not an address".to_string(), 0, &mut store);
    assert!(matches!(r, Err(OtpError::ValidationError)));
    // Rejected before any storage operation: nothing was invalidated.
    assert!(verify(&mut store, otp.code, "user@example.com", 10));
}

#[test]
fn util_time_exact_values() {
    assert_eq!(util_time(100, 10), Ok((100, 700)));
    assert_eq!(util_time(0, 1), Ok((0, 60)));
    assert_eq!(util_time(5, 0), Err(OtpError::ClockError));
    assert_eq!(util_time(u64::MAX, 10), Err(OtpError::ClockError));
}

#[test]
fn normalization_lowers_and_trims() {
    assert_eq!(normalize_email("  AbC@D.e  "), "abc@d.e");
    assert_eq!(normalize_email("USER@EXAMPLE.COM"), "user@example.com");
    assert_eq!(normalize_email("user@example.com"), "user@example.com");
}

#[test]
fn email_grammar_spot_checks() {
    assert!(is_valid_email("user@example.com"));
    assert!(is_valid_email("a@b"));
    assert!(is_valid_email("x-y.z@ex-ample.co.uk"));
    assert!(!is_valid_email(""));
    assert!(!is_valid_email("a@b@c"));
    assert!(!is_valid_email("a b@c.d"));
    assert!(!is_valid_email("a@b..c"));
    assert!(!is_valid_email("a@b-.c"));
    assert!(!is_valid_email("a@-b.c"));
    assert!(!is_valid_email("a@b.c-"));
    assert!(!is_valid_email("a@"));
    assert!(!is_valid_email("@b"));
}

#[test]
fn otp_error_messages() {
    assert_eq!(
        OtpError::ValidationError.message(),
        "ValidationError: malformed email address"
    );
    assert_eq!(
        OtpError::ClockError.message(),
        "ClockError: expired time cannot be less than current time"
    );
    assert_eq!(OtpError::StorageError.message(), "StorageError: backing store failed");
}

#[test]
fn store_len_counts_all_records() {
    let mut store = OtpStore::new();
    assert_eq!(store.len(), 0);
    let otp = issue(&mut store, "user@example.com", 0);
    assert_eq!(store.len(), 1);
    assert!(verify(&mut store, otp.code, "user@example.com", 10));
    // Consumption marks; it never deletes.
    assert_eq!(store.len(), 1);
    Otp::update_otp("user@example.com".to_string(), 20, &mut store).unwrap();
    assert_eq!(store.len(), 2);
}
