use zero2prod::domain::{check_email, check_name, IdempotencyKey, SubscriberEmail, SubscriberName};
use zero2prod::error::AppError;
use zero2prod::response::{empty, render, text};

#[test]
fn idempotency_key_bounds() {
    assert_eq!(IdempotencyKey::parse(String::new()).err(), Some(AppError::InvalidIdempotencyKey));
    assert!(IdempotencyKey::parse("a".to_string()).is_ok());
    assert!(IdempotencyKey::parse("é".repeat(50)).is_ok());
    assert_eq!(IdempotencyKey::parse("x".repeat(51)).err(), Some(AppError::InvalidIdempotencyKey));
    let k = IdempotencyKey::parse("abc-123".to_string()).unwrap();
    assert_eq!(k.as_str(), "abc-123");
}

#[test]
fn email_validation() {
    assert!(check_email("ursula@example.com"));
    assert!(check_email("a@b"));
    assert!(!check_email(""));
    assert!(!check_email("ursula.example.com"));
    assert!(!check_email("@example.com"));
    assert!(!check_email("ursula@"));
    assert!(!check_email("a@b@c"));
    assert!(!check_email("ursula @example.com"));
    assert!(SubscriberEmail::parse("x@y.z".to_string()).is_ok());
    assert!(SubscriberEmail::parse("xy.z".to_string()).is_err());
}

#[test]
fn name_validation() {
    assert!(check_name("Ursula Le Guin"));
    assert!(!check_name(""));
    assert!(!check_name("   "));
    assert!(check_name(&"a".repeat(256)));
    assert!(!check_name(&"a".repeat(257)));
    for c in ['/', '(', ')', '"', '<', '>', '\\', '{', '}'] {
        assert!(!check_name(&format!("Ursula{}", c)));
    }
    assert_eq!(SubscriberName::parse("Ursula".to_string()).unwrap().as_str(), "Ursula");
}

#[test]
fn redirect_response() {
    let r = render().redirect("/admin/newsletters");
    assert_eq!(r.status, 303);
    assert_eq!(r.headers.len(), 1);
    assert_eq!(r.headers[0].name, "location");
    assert_eq!(r.headers[0].value, b"/admin/newsletters".to_vec());
    assert!(r.body.is_empty());
    let copy = r.duplicate();
    assert_eq!(copy.status, 303);
    assert_eq!(copy.headers[0].value, r.headers[0].value);
}

#[test]
fn html_and_text_responses() {
    let h = render().html("<p>hi</p>");
    assert_eq!(h.status, 200);
    assert_eq!(h.headers[0].name, "content-type");
    assert_eq!(h.headers[0].value, b"text/html; charset=utf-8".to_vec());
    assert_eq!(h.body, b"<p>hi</p>".to_vec());
    let t = text("plain");
    assert_eq!(t.status, 200);
    assert!(t.headers.is_empty());
    assert_eq!(t.body, b"plain".to_vec());
    let e = empty();
    assert_eq!(e.status, 200);
    assert!(e.headers.is_empty() && e.body.is_empty());
}

#[test]
fn error_status_codes() {
    assert_eq!(AppError::InvalidIdempotencyKey.status_code(), 400);
    assert_eq!(AppError::Unauthorized.status_code(), 401);
    assert_eq!(AppError::UnknownSubscriptionToken.status_code(), 401);
    assert_eq!(AppError::MissingSavedResponse.status_code(), 500);
    assert_eq!(AppError::IssueNotFound.status_code(), 500);
}
