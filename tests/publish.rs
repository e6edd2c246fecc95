use zero2prod::controller::Flash;
use zero2prod::domain::IdempotencyKey;
use zero2prod::error::AppError;
use zero2prod::idempotency::{get_saved_response, try_processing, NextAction};
use zero2prod::newsletter::{publish_newsletter, publish_newsletter_issue, FormData};
use zero2prod::store::{Database, Subscription, SubscriptionToken};
use zero2prod::subscriptions::{self, confirm};

fn form(title: &str, key: &str) -> FormData {
    FormData {
        title: title.to_string(),
        text_content: "Newsletter body as plain text".to_string(),
        html_content: "<p>Newsletter body as HTML</p>".to_string(),
        idempotency_key: key.to_string(),
    }
}

fn add_subscriber(db: &mut Database, n: u128, confirmed: bool) {
    let token = format!("token{:020}", n);
    let sub = subscriptions::FormData {
        email: format!("subscriber{}@example.com", n),
        name: format!("Subscriber {}", n),
    };
    let mail = subscriptions::subscribe_with(db, sub, "http://localhost", n, token.clone(), 0)
        .expect("valid form");
    assert!(mail.html_body.contains(&token));
    if confirmed {
        confirm(db, &token).expect("known token");
    }
}

fn is_published_notice(flash: &Option<Flash>) -> bool {
    matches!(flash, Some(Flash::Info(t)) if t == "The newsletter issue has been published!")
}

fn location(resp: &zero2prod::response::HttpResponse) -> Vec<u8> {
    resp.headers
        .iter()
        .find(|h| h.name == "location")
        .map(|h| h.value.clone())
        .expect("location header")
}

#[test]
fn first_publish_then_replay_with_three_subscribers() {
    let mut db = Database::new();
    for n in 1..=3 {
        add_subscriber(&mut db, n, true);
    }
    let first_reply =
        publish_newsletter(&mut db, 7, form("Hello", "abc-123")).expect("first publish");
    assert!(is_published_notice(&first_reply.flash));
    let first = first_reply.response;
    assert_eq!(first.status, 303);
    assert_eq!(location(&first), b"/admin/newsletters".to_vec());
    assert_eq!(db.issues_len(), 1);
    assert_eq!(db.queue_len(), 3);
    assert_eq!(db.idempotency_len(), 1);
    let key = IdempotencyKey::parse("abc-123".to_string()).unwrap();
    assert!(matches!(get_saved_response(&db, &key, 7), Ok(Some(_))));

    let second_reply = publish_newsletter(&mut db, 7, form("Hello", "abc-123")).expect("replay");
    assert!(is_published_notice(&second_reply.flash));
    let second = second_reply.response;
    assert_eq!(second.status, first.status);
    assert_eq!(location(&second), location(&first));
    assert_eq!(second.body, first.body);
    assert_eq!(db.issues_len(), 1);
    assert_eq!(db.queue_len(), 3);
    assert_eq!(db.idempotency_len(), 1);
}

#[test]
fn many_submissions_make_one_issue() {
    let mut db = Database::new();
    add_subscriber(&mut db, 1, true);
    let mut statuses = Vec::new();
    for _ in 0..5 {
        let r = publish_newsletter(&mut db, 1, form("Newsletter title", "key-1")).unwrap().response;
        statuses.push((r.status, r.body.clone(), location(&r)));
    }
    assert!(statuses.iter().all(|s| *s == statuses[0]));
    assert_eq!(db.issues_len(), 1);
    assert_eq!(db.queue_len(), 1);
}

#[test]
fn same_key_for_other_user_is_a_new_publish() {
    let mut db = Database::new();
    add_subscriber(&mut db, 1, true);
    publish_newsletter(&mut db, 1, form("A", "shared")).unwrap();
    publish_newsletter(&mut db, 2, form("B", "shared")).unwrap();
    assert_eq!(db.issues_len(), 2);
    assert_eq!(db.queue_len(), 2);
}

#[test]
fn unconfirmed_subscribers_get_no_task() {
    let mut db = Database::new();
    add_subscriber(&mut db, 1, true);
    add_subscriber(&mut db, 2, false);
    add_subscriber(&mut db, 3, true);
    publish_newsletter_issue(&mut db, 1, form("Newsletter title", "k"), 99, 0).unwrap();
    assert_eq!(db.queue_len(), 2);
    let emails: Vec<String> =
        (0..db.queue_len()).map(|i| db.task_at(i).subscriber_email.clone()).collect();
    assert_eq!(emails, vec!["subscriber1@example.com", "subscriber3@example.com"]);
    assert!((0..db.queue_len()).all(|i| db.task_at(i).issue_id == 99 && !db.task_at(i).locked));
}

#[test]
fn publish_without_subscribers_makes_no_task() {
    let mut db = Database::new();
    add_subscriber(&mut db, 1, false);
    publish_newsletter(&mut db, 1, form("Newsletter title", "k")).unwrap();
    assert_eq!(db.issues_len(), 1);
    assert_eq!(db.queue_len(), 0);
}

#[test]
fn invalid_keys_are_rejected_without_writes() {
    let mut db = Database::new();
    add_subscriber(&mut db, 1, true);
    let r = publish_newsletter(&mut db, 1, form("T", ""));
    assert_eq!(r.err(), Some(AppError::InvalidIdempotencyKey));
    let long = "k".repeat(51);
    let r = publish_newsletter(&mut db, 1, form("T", &long));
    assert_eq!(r.err(), Some(AppError::InvalidIdempotencyKey));
    assert_eq!(db.idempotency_len(), 0);
    assert_eq!(db.issues_len(), 0);
    let fifty = "k".repeat(50);
    assert!(publish_newsletter(&mut db, 1, form("T", &fifty)).is_ok());
}

#[test]
fn second_request_while_first_is_in_flight_fails() {
    let mut db = Database::new();
    add_subscriber(&mut db, 1, true);
    let key = IdempotencyKey::parse("in-flight".to_string()).unwrap();
    let started = try_processing(&mut db, &key, 5).unwrap();
    assert!(matches!(started, NextAction::StartProcessing(_)));
    let r = publish_newsletter(&mut db, 5, form("T", "in-flight"));
    assert_eq!(r.err(), Some(AppError::MissingSavedResponse));
    assert_eq!(db.issues_len(), 0);
    assert_eq!(db.queue_len(), 0);
    assert_eq!(db.idempotency_len(), 1);
}

#[test]
fn rollback_leaves_no_issue_and_no_placeholder() {
    let mut db = Database::new();
    add_subscriber(&mut db, 1, true);
    add_subscriber(&mut db, 2, true);
    let key = IdempotencyKey::parse("abc-123".to_string()).unwrap();
    let mut tx = match try_processing(&mut db, &key, 3).unwrap() {
        NextAction::StartProcessing(tx) => tx,
        NextAction::ReturnSavedResponse(_) => panic!("key was new"),
    };
    assert_eq!(db.idempotency_len(), 1);
    tx.insert_issue(zero2prod::store::NewsletterIssue {
        issue_id: 1,
        title: "Hello".to_string(),
        text_content: "t".to_string(),
        html_content: "h".to_string(),
        published_at: 0,
    });
    tx.enqueue_delivery_tasks(&db, 1);
    tx.rollback(&mut db);
    assert_eq!(db.idempotency_len(), 0);
    assert_eq!(db.issues_len(), 0);
    assert_eq!(db.queue_len(), 0);
    publish_newsletter(&mut db, 3, form("Hello", "abc-123")).unwrap();
    assert_eq!(db.issues_len(), 1);
    assert_eq!(db.queue_len(), 2);
}

#[test]
fn malformed_stored_address_still_gets_a_task() {
    let mut db = Database::new();
    db.push_subscription(Subscription {
        id: 1,
        email: "not-an-address".to_string(),
        name: "N".to_string(),
        subscribed_at: 0,
        confirmed: true,
    });
    db.push_token(SubscriptionToken { token: "t".to_string(), subscriber_id: 1 });
    publish_newsletter(&mut db, 1, form("T", "k")).unwrap();
    assert_eq!(db.queue_len(), 1);
}

#[test]
fn saved_response_lookup_tells_unknown_from_unanswered() {
    let mut db = Database::new();
    let key = IdempotencyKey::parse("k-1".to_string()).unwrap();
    assert!(matches!(get_saved_response(&db, &key, 1), Ok(None)));
    let started = try_processing(&mut db, &key, 1).unwrap();
    assert!(matches!(get_saved_response(&db, &key, 1), Err(AppError::MissingSavedResponse)));
    assert!(matches!(get_saved_response(&db, &key, 2), Ok(None)));
    let tx = match started {
        NextAction::StartProcessing(tx) => tx,
        NextAction::ReturnSavedResponse(_) => panic!("key was new"),
    };
    let resp = zero2prod::response::render().redirect("/admin/newsletters");
    zero2prod::idempotency::save_response(&mut db, tx, resp).unwrap();
    match get_saved_response(&db, &key, 1) {
        Ok(Some(r)) => assert_eq!(r.status, 303),
        _ => panic!("the response was saved"),
    }
}
