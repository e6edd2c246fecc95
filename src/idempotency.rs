use vstd::prelude::*;

use crate::domain::IdempotencyKey;
use crate::error::AppError;
use crate::response::{HttpResponse, ResponseView};
use crate::store::{
    confirmed_emails, placeholder, tasks_for, Database, DatabaseView, DeliveryTask, IssueView,
    NewsletterIssue, RecordView, TaskView,
};
use crate::ambient::now_timestamp;

verus! {

/// The writes of one publish, held back until the saved response commits
/// them together with the idempotency record.
pub struct Transaction {
    user_id: u128,
    key: String,
    issues: Vec<NewsletterIssue>,
    tasks: Vec<DeliveryTask>,
}

pub struct TransactionView {
    pub user_id: u128,
    pub key: Seq<char>,
    pub issues: Seq<IssueView>,
    pub tasks: Seq<TaskView>,
}

impl View for Transaction {
    type V = TransactionView;

    closed spec fn view(&self) -> TransactionView {
        TransactionView {
            user_id: self.user_id,
            key: self.key@,
            issues: self.issues@.map_values(|i: NewsletterIssue| i@),
            tasks: self.tasks@.map_values(|t: DeliveryTask| t@),
        }
    }
}

/// A transaction that has claimed `(user_id, key)` and holds no write yet.
pub open spec fn fresh_transaction(user_id: u128, key: Seq<char>) -> TransactionView {
    TransactionView { user_id, key, issues: Seq::empty(), tasks: Seq::empty() }
}

/// The store after `tx` commits with `response` saved for its key.
pub open spec fn commit(db: DatabaseView, tx: TransactionView, response: ResponseView) -> DatabaseView {
    DatabaseView {
        idempotency: db.idempotency.update(
            db.record_index(tx.user_id, tx.key),
            RecordView { user_id: tx.user_id, key: tx.key, response: Some(response) },
        ),
        issues: db.issues + tx.issues,
        queue: db.queue + tx.tasks,
        ..db
    }
}

/// The store after `tx` is abandoned: its claim is dropped, its writes never
/// happened.
pub open spec fn rollback(db: DatabaseView, tx: TransactionView) -> DatabaseView {
    if db.has_record(tx.user_id, tx.key) {
        DatabaseView {
            idempotency: db.idempotency.remove(db.record_index(tx.user_id, tx.key)),
            ..db
        }
    } else {
        db
    }
}

impl Transaction {
    /// Adds an issue to the pending writes.
    pub fn insert_issue(&mut self, issue: NewsletterIssue)
        ensures
            final(self)@ == (TransactionView {
                issues: old(self)@.issues.push(issue@),
                ..old(self)@
            }),
    {
        let ghost before = self@;
        let ghost iv = issue@;
        self.issues.push(issue);
        assert(self@.issues =~= before.issues.push(iv));
    }

    /// Adds one delivery task of `issue_id` per confirmed subscriber of `db`.
    pub fn enqueue_delivery_tasks(&mut self, db: &Database, issue_id: u128)
        ensures
            final(self)@ == (TransactionView {
                tasks: old(self)@.tasks + tasks_for(issue_id, confirmed_emails(db@.subscriptions)),
                ..old(self)@
            }),
    {
        let ghost before = self@;
        let emails = db.confirmed_emails();
        let ghost ev = emails@.map_values(|e: String| e@);
        let mut i: usize = 0;
        while i < emails.len()
            invariant
                i <= emails.len(),
                ev == emails@.map_values(|e: String| e@),
                self@ == (TransactionView {
                    tasks: before.tasks + tasks_for(issue_id, ev.take(i as int)),
                    ..before
                }),
            decreases emails.len() - i,
        {
            let ghost prev = self@;
            self.tasks.push(
                DeliveryTask { issue_id, subscriber_email: emails[i].clone(), locked: false },
            );
            assert(tasks_for(issue_id, ev.take(i + 1)) =~= tasks_for(issue_id, ev.take(i as int)).push(
                TaskView { issue_id, email: ev[i as int], locked: false },
            ));
            assert(ev[i as int] == emails@[i as int]@);
            assert(self@.tasks =~= prev.tasks.push(
                TaskView { issue_id, email: ev[i as int], locked: false },
            ));
            assert(self@.tasks =~= before.tasks + tasks_for(issue_id, ev.take(i + 1)));
            i = i + 1;
        }
        assert(ev.take(emails.len() as int) =~= ev);
    }

    /// Abandons the transaction: the claim on its key is dropped and its
    /// writes are discarded.
    pub fn rollback(self, db: &mut Database)
        requires
            old(db).wf(),
        ensures
            final(db).wf(),
            final(db)@ == rollback(old(db)@, self@),
    {
        db.remove_record(self.user_id, &self.key);
    }
}

/// What to do with a publish request after its key has been looked up.
pub enum NextAction {
    /// The key was new: it is now claimed, and the caller does the work.
    StartProcessing(Transaction),
    /// The key was answered before: hand back the same response.
    ReturnSavedResponse(HttpResponse),
}

/// The response saved for `(user_id, key)`: `None` where the key is
/// unknown, and `MissingSavedResponse` where it is claimed but was never
/// answered.
pub fn get_saved_response(db: &Database, idempotency_key: &IdempotencyKey, user_id: u128) -> (r:
    Result<Option<HttpResponse>, AppError>)
    requires
        db.wf(),
    ensures
        !db@.has_record(user_id, idempotency_key@) ==> r matches Ok(None),
        db@.has_record(user_id, idempotency_key@) ==> (match db@.saved_response(
            user_id,
            idempotency_key@,
        ) {
            Some(saved) => r matches Ok(Some(resp)) && resp@ == saved,
            None => r matches Err(e) && e == AppError::MissingSavedResponse,
        }),
{
    let key = idempotency_key.as_string();
    match db.find_record(user_id, key) {
        None => Ok(None),
        Some(_) => match db.saved_response(user_id, key) {
            Some(resp) => Ok(Some(resp)),
            None => Err(AppError::MissingSavedResponse),
        },
    }
}

/// Claims `(user_id, key)` for a first request, or replays the response
/// saved for it.
pub fn try_processing(db: &mut Database, idempotency_key: &IdempotencyKey, user_id: u128) -> (r:
    Result<NextAction, AppError>)
    requires
        old(db).wf(),
    ensures
        final(db).wf(),
        !old(db)@.has_record(user_id, idempotency_key@) ==> (r matches Ok(
            NextAction::StartProcessing(tx),
        ) && tx@ == fresh_transaction(user_id, idempotency_key@) && final(db)@ == (DatabaseView {
            idempotency: old(db)@.idempotency.push(placeholder(user_id, idempotency_key@)),
            ..old(db)@
        })),
        old(db)@.has_record(user_id, idempotency_key@) ==> final(db)@ == old(db)@,
        old(db)@.has_record(user_id, idempotency_key@) ==> (match old(db)@.saved_response(
            user_id,
            idempotency_key@,
        ) {
            Some(saved) => r matches Ok(NextAction::ReturnSavedResponse(resp)) && resp@ == saved,
            None => r matches Err(e) && e == AppError::MissingSavedResponse,
        }),
{
    let key = idempotency_key.as_string();
    let created_at = now_timestamp();
    if db.insert_placeholder(user_id, key, created_at) {
        let tx = Transaction {
            user_id,
            key: key.clone(),
            issues: Vec::new(),
            tasks: Vec::new(),
        };
        assert(tx@.issues =~= Seq::<IssueView>::empty());
        assert(tx@.tasks =~= Seq::<TaskView>::empty());
        Ok(NextAction::StartProcessing(tx))
    } else {
        match get_saved_response(db, idempotency_key, user_id)? {
            Some(resp) => Ok(NextAction::ReturnSavedResponse(resp)),
            None => Err(AppError::MissingSavedResponse),
        }
    }
}

/// Saves `http_response` as the answer to the transaction's key and commits
/// the transaction; hands back the response as saved.
pub fn save_response(db: &mut Database, transaction: Transaction, http_response: HttpResponse) -> (r:
    Result<HttpResponse, AppError>)
    requires
        old(db).wf(),
    ensures
        final(db).wf(),
        old(db)@.has_record(transaction@.user_id, transaction@.key) ==> (r matches Ok(resp)
            && resp@ == http_response@ && final(db)@ == commit(
            old(db)@,
            transaction@,
            http_response@,
        )),
        !old(db)@.has_record(transaction@.user_id, transaction@.key) ==> (r matches Err(e) && e
            == AppError::MissingSavedResponse && final(db)@ == old(db)@),
{
    let Transaction { user_id, key, issues, tasks } = transaction;
    let returned = http_response.duplicate();
    if db.finalize_record(user_id, &key, http_response) {
        db.append_rows(issues, tasks);
        Ok(returned)
    } else {
        Err(AppError::MissingSavedResponse)
    }
}

} // verus!
