use zero2prod::error::AppError;
use zero2prod::store::Database;
use zero2prod::subscriptions::{
    confirm, confirmation_email, error_chain_fmt, generate_subscription_token, subscribe,
    subscribe_with, FormData, NewSubscriber, SubscribeError,
};

fn form(name: &str, email: &str) -> FormData {
    FormData { name: name.to_string(), email: email.to_string() }
}

#[test]
fn valid_form_is_stored_pending() {
    let mut db = Database::new();
    let mail = subscribe_with(
        &mut db,
        form("le guin", "ursula_le_guin@gmail.com"),
        "http://127.0.0.1",
        11,
        "abcdefghijklmnopqrstuvwxy".to_string(),
        0,
    )
    .unwrap();
    assert_eq!(db.subscriptions_len(), 1);
    let s = db.subscription_at(0);
    assert_eq!(s.email, "ursula_le_guin@gmail.com");
    assert_eq!(s.name, "le guin");
    assert!(!s.confirmed);
    assert_eq!(mail.recipient, "ursula_le_guin@gmail.com");
    assert_eq!(mail.subject, "Welcome!");
    assert_eq!(
        mail.html_body,
        "Welcome to our newsletter!<br /> Click <a href=\"http://127.0.0.1/subscriptions/confirm?subscription_token=abcdefghijklmnopqrstuvwxy\">here</a> to confirm your subscription"
    );
    assert_eq!(mail.text_body, mail.html_body);
}

#[test]
fn empty_fields_are_rejected() {
    let mut db = Database::new();
    let cases = [("", "ursula_le_guin@gmail.com"), ("Ursula", ""), ("Ursula", "definitely-not-an-email")];
    for (name, email) in cases {
        let r = subscribe(&mut db, form(name, email), "http://localhost");
        match r {
            Err(e) => {
                assert!(matches!(e, SubscribeError::ValidationError(_)));
                assert_eq!(e.status_code(), 400);
            }
            Ok(_) => panic!("accepted {:?} {:?}", name, email),
        }
    }
    assert_eq!(db.subscriptions_len(), 0);
    assert_eq!(SubscribeError::UnexpectedError("db".to_string()).status_code(), 500);
}

#[test]
fn clicking_the_link_confirms_the_subscriber() {
    let mut db = Database::new();
    let token = "tokentokentokentokentoken".to_string();
    subscribe_with(&mut db, form("le guin", "u@example.com"), "http://x", 1, token.clone(), 0)
        .unwrap();
    assert_eq!(confirm(&mut db, &"wrong".to_string()), Err(AppError::UnknownSubscriptionToken));
    assert!(!db.subscription_at(0).confirmed);
    assert_eq!(confirm(&mut db, &token), Ok(()));
    assert!(db.subscription_at(0).confirmed);
}

#[test]
fn subscribe_makes_a_fresh_token() {
    let mut db = Database::new();
    let mail = subscribe(&mut db, form("le guin", "u@example.com"), "http://x").unwrap();
    assert_eq!(mail.recipient, "u@example.com");
    assert_eq!(mail.subject, "Welcome!");
    assert_eq!(mail.text_body, mail.html_body);
    let marker = "subscription_token=";
    let start = mail.html_body.find(marker).unwrap() + marker.len();
    let token: String = mail.html_body[start..].chars().take_while(|c| *c != '"').collect();
    assert_eq!(token.len(), 25);
    assert_eq!(confirm(&mut db, &token), Ok(()));
    assert!(db.subscription_at(0).confirmed);
}

#[test]
fn tokens_are_25_alphanumerics() {
    let a = generate_subscription_token();
    let b = generate_subscription_token();
    assert_eq!(a.chars().count(), 25);
    assert!(a.chars().all(|c| c.is_ascii_alphanumeric()));
    assert_ne!(a, b);
}

#[test]
fn new_subscriber_from_form() {
    let s = NewSubscriber::try_from(form("Ursula", "u@example.com")).unwrap();
    assert_eq!(s.email.as_str(), "u@example.com");
    assert_eq!(s.name.as_str(), "Ursula");
    assert!(NewSubscriber::try_from(form("Urs<ula", "u@example.com")).is_err());
}

#[test]
fn confirmation_email_text() {
    let m = confirmation_email("a@b", "https://site", "T");
    assert_eq!(
        m.text_body,
        "Welcome to our newsletter!<br /> Click <a href=\"https://site/subscriptions/confirm?subscription_token=T\">here</a> to confirm your subscription"
    );
}

#[test]
fn error_chain_lists_causes() {
    assert_eq!(error_chain_fmt("top", &vec![]), "top\n\n");
    let causes = vec!["middle".to_string(), "root".to_string()];
    assert_eq!(
        error_chain_fmt("top", &causes),
        "top\n\nCaused by:n\tmiddle\nCaused by:n\troot\n"
    );
}
