use zero2prod::error::AppError;
use zero2prod::newsletter::{publish_newsletter_issue, FormData};
use zero2prod::store::{Database, Subscription, SubscriptionToken};
use zero2prod::worker::{
    complete_task, outcome_of, try_execute_task, ExecutionOutcome, TaskStep, WorkerSchedule,
};

fn add(db: &mut Database, id: u128, email: &str, confirmed: bool) {
    db.push_subscription(Subscription {
        id,
        email: email.to_string(),
        name: "Name".to_string(),
        subscribed_at: 0,
        confirmed,
    });
    db.push_token(SubscriptionToken { token: format!("tok{}", id), subscriber_id: id });
}

fn publish(db: &mut Database, key: &str, issue_id: u128) {
    let form = FormData {
        title: "Newsletter title".to_string(),
        text_content: "Newsletter body as plain text".to_string(),
        html_content: "<p>Newsletter body as HTML</p>".to_string(),
        idempotency_key: key.to_string(),
    };
    publish_newsletter_issue(db, 1, form, issue_id, 0).unwrap();
}

#[test]
fn worker_drains_queue_with_one_delivery_per_subscriber() {
    let mut db = Database::new();
    add(&mut db, 1, "a@example.com", true);
    add(&mut db, 2, "b@example.com", true);
    add(&mut db, 3, "c@example.com", false);
    add(&mut db, 4, "d@example.com", true);
    publish(&mut db, "k", 42);
    let mut sent = Vec::new();
    loop {
        match try_execute_task(&mut db).unwrap() {
            TaskStep::EmptyQueue => break,
            TaskStep::Skipped => {}
            TaskStep::Deliver(job) => {
                assert_eq!(job.issue_id(), 42);
                assert_eq!(job.subject(), "Newsletter title");
                assert_eq!(job.html_body(), "<p>Newsletter body as HTML</p>");
                assert_eq!(job.text_body(), "Newsletter body as plain text");
                sent.push(job.recipient().to_string());
                assert_eq!(complete_task(&mut db, job), ExecutionOutcome::TaskCompleted);
            }
        }
    }
    assert_eq!(sent, vec!["a@example.com", "b@example.com", "d@example.com"]);
    assert_eq!(db.queue_len(), 0);
}

#[test]
fn empty_queue_reports_empty() {
    let mut db = Database::new();
    let step = try_execute_task(&mut db).unwrap();
    assert!(matches!(step, TaskStep::EmptyQueue));
    assert_eq!(outcome_of(&step), ExecutionOutcome::EmptyQueue);
}

#[test]
fn a_claimed_task_is_not_handed_out_twice() {
    let mut db = Database::new();
    add(&mut db, 1, "a@example.com", true);
    publish(&mut db, "k", 1);
    assert_eq!(db.queue_len(), 1);
    let first = try_execute_task(&mut db).unwrap();
    let job = match first {
        TaskStep::Deliver(job) => job,
        _ => panic!("the task should be claimed"),
    };
    assert!(db.task_at(0).locked);
    let second = try_execute_task(&mut db).unwrap();
    assert!(matches!(second, TaskStep::EmptyQueue));
    complete_task(&mut db, job);
    assert_eq!(db.queue_len(), 0);
}

#[test]
fn malformed_address_is_skipped_without_delivery() {
    let mut db = Database::new();
    add(&mut db, 1, "no-at-sign", true);
    add(&mut db, 2, "ok@example.com", true);
    publish(&mut db, "k", 1);
    let step = try_execute_task(&mut db).unwrap();
    assert!(matches!(step, TaskStep::Skipped));
    assert_eq!(outcome_of(&step), ExecutionOutcome::TaskCompleted);
    assert_eq!(db.queue_len(), 1);
    assert_eq!(db.task_at(0).subscriber_email, "ok@example.com");
}

#[test]
fn task_of_missing_issue_is_released() {
    let mut db = Database::new();
    add(&mut db, 1, "a@example.com", true);
    let key = zero2prod::domain::IdempotencyKey::parse("k".to_string()).unwrap();
    let mut tx = match zero2prod::idempotency::try_processing(&mut db, &key, 1).unwrap() {
        zero2prod::idempotency::NextAction::StartProcessing(tx) => tx,
        _ => panic!("key was new"),
    };
    tx.enqueue_delivery_tasks(&db, 77);
    let resp = zero2prod::response::render().redirect("/admin/newsletters");
    zero2prod::idempotency::save_response(&mut db, tx, resp).unwrap();
    assert_eq!(db.queue_len(), 1);
    let r = try_execute_task(&mut db);
    assert_eq!(r.err(), Some(AppError::IssueNotFound));
    assert_eq!(db.queue_len(), 1);
    assert!(!db.task_at(0).locked);
}

#[test]
fn schedule_waits_by_outcome() {
    let s = WorkerSchedule::new();
    assert_eq!(s.delay_after(&Ok(ExecutionOutcome::EmptyQueue)), 10);
    assert_eq!(s.delay_after(&Ok(ExecutionOutcome::TaskCompleted)), 0);
    assert_eq!(s.delay_after(&Err(AppError::IssueNotFound)), 1);
    let custom = WorkerSchedule { idle_secs: 3, backoff_secs: 7 };
    assert_eq!(custom.delay_after(&Ok(ExecutionOutcome::EmptyQueue)), 3);
    assert_eq!(custom.delay_after(&Err(AppError::Unauthorized)), 7);
}
