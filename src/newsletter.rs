use vstd::prelude::*;
use vstd::string::*;

use crate::ambient::{new_id, now_timestamp};
use crate::domain::{is_valid_idempotency_key, IdempotencyKey};
use crate::error::AppError;
use crate::idempotency::{save_response, try_processing, NextAction};
use crate::controller::{Flash, Reply, SessionChange};
use crate::response::{redirect_view, render, HttpResponse, ResponseView};
use crate::store::{
    confirmed_emails, record_is, tasks_for, Database, DatabaseView, IssueView, NewsletterIssue,
    RecordView,
};

verus! {

/// The fields of the admin's publish form.
pub struct FormData {
    pub title: String,
    pub text_content: String,
    pub html_content: String,
    pub idempotency_key: String,
}

pub struct FormView {
    pub title: Seq<char>,
    pub text_content: Seq<char>,
    pub html_content: Seq<char>,
    pub idempotency_key: Seq<char>,
}

impl View for FormData {
    type V = FormView;

    open spec fn view(&self) -> FormView {
        FormView {
            title: self.title@,
            text_content: self.text_content@,
            html_content: self.html_content@,
            idempotency_key: self.idempotency_key@,
        }
    }
}

/// Where the admin is sent once an issue is published.
pub open spec fn newsletters_location() -> Seq<u8> {
    "/admin/newsletters".spec_bytes()
}

/// The answer to a successful publish.
pub open spec fn published_response() -> ResponseView {
    redirect_view(newsletters_location())
}

pub open spec fn result_view(r: Result<Reply, AppError>) -> Result<ResponseView, AppError> {
    match r {
        Ok(reply) => Ok(reply.response@),
        Err(e) => Err(e),
    }
}

/// The text of the notice shown after a publish, first or replayed.
pub open spec fn published_notice() -> Seq<char> {
    "The newsletter issue has been published!"@
}

/// A successful publish carries the published notice as an info flash and
/// leaves the session alone.
pub open spec fn notifies(r: Result<Reply, AppError>) -> bool {
    r matches Ok(reply) ==> (reply.flash matches Some(Flash::Info(t)) && t@ == published_notice()
        && reply.session == SessionChange::Keep)
}

/// The reply to a successful publish: `response`, with the notice.
fn published_reply(response: HttpResponse) -> (r: Reply)
    ensures
        r.response@ == response@,
        notifies(Ok::<Reply, AppError>(r)),
{
    Reply {
        response,
        flash: Some(Flash::Info(String::from_str("The newsletter issue has been published!"))),
        session: SessionChange::Keep,
    }
}

/// What publishing `form` as `user_id` does to `db`, and what it answers,
/// where a first publish gives the new issue the id `issue_id`.
pub open spec fn publish(db: DatabaseView, user_id: u128, form: FormView, issue_id: u128) -> (
    DatabaseView,
    Result<ResponseView, AppError>,
) {
    let key = form.idempotency_key;
    if !is_valid_idempotency_key(key) {
        (db, Err(AppError::InvalidIdempotencyKey))
    } else if db.has_record(user_id, key) {
        match db.saved_response(user_id, key) {
            Some(saved) => (db, Ok(saved)),
            None => (db, Err(AppError::MissingSavedResponse)),
        }
    } else {
        (
            DatabaseView {
                idempotency: db.idempotency.push(
                    RecordView { user_id, key, response: Some(published_response()) },
                ),
                issues: db.issues.push(
                    IssueView {
                        issue_id,
                        title: form.title,
                        text_content: form.text_content,
                        html_content: form.html_content,
                    },
                ),
                queue: db.queue + tasks_for(issue_id, confirmed_emails(db.subscriptions)),
                ..db
            },
            Ok(published_response()),
        )
    }
}

/// Publishes `form` as `user_id`, giving a new issue the id `issue_id`:
/// on a first request for the key, the issue and one delivery task per
/// confirmed subscriber are committed together with the saved response; a
/// repeated key replays the saved response and writes nothing. Either way
/// the reply carries the published notice.
pub fn publish_newsletter_issue(
    db: &mut Database,
    user_id: u128,
    form: FormData,
    issue_id: u128,
    published_at: i64,
) -> (r: Result<Reply, AppError>)
    requires
        old(db).wf(),
    ensures
        final(db).wf(),
        (final(db)@, result_view(r)) == publish(old(db)@, user_id, form@, issue_id),
        notifies(r),
{
    let ghost db0 = db@;
    let ghost fv = form@;
    let FormData { title, text_content, html_content, idempotency_key } = form;
    let key = match IdempotencyKey::parse(idempotency_key) {
        Ok(k) => k,
        Err(e) => {
            return Err(e);
        },
    };
    let mut tx = match try_processing(db, &key, user_id) {
        Ok(NextAction::StartProcessing(tx)) => tx,
        Ok(NextAction::ReturnSavedResponse(resp)) => {
            return Ok(published_reply(resp));
        },
        Err(e) => {
            return Err(e);
        },
    };
    let ghost db1 = db@;
    tx.insert_issue(NewsletterIssue { issue_id, title, text_content, html_content, published_at });
    tx.enqueue_delivery_tasks(db, issue_id);
    let response = render().redirect("/admin/newsletters");
    proof {
        let k = db1.record_index(user_id, fv.idempotency_key);
        let last = db1.idempotency.len() - 1;
        assert(record_is(db1.idempotency[last], user_id, fv.idempotency_key));
        assert(db1.has_record(user_id, fv.idempotency_key));
        assert(record_is(db1.idempotency[k], user_id, fv.idempotency_key));
        if k != last {
            assert(!record_is(
                db1.idempotency[k],
                db1.idempotency[last].user_id,
                db1.idempotency[last].key,
            ));
        }
    }
    let saved = save_response(db, tx, response);
    proof {
        let (pdb, pr) = publish(db0, user_id, fv, issue_id);
        assert(db@.idempotency =~= pdb.idempotency);
        assert(db@.issues =~= pdb.issues);
        assert(db@.queue =~= pdb.queue);
    }
    match saved {
        Ok(resp) => Ok(published_reply(resp)),
        Err(e) => Err(e),
    }
}

/// Publishes `form` as `user_id`; a first publish gives the new issue a
/// random id.
pub fn publish_newsletter(db: &mut Database, user_id: u128, form: FormData) -> (r: Result<
    Reply,
    AppError,
>)
    requires
        old(db).wf(),
    ensures
        final(db).wf(),
        notifies(r),
        exists|issue_id: u128|
            (final(db)@, result_view(r)) == #[trigger] publish(old(db)@, user_id, form@, issue_id),
{
    let issue_id = new_id();
    let published_at = now_timestamp();
    publish_newsletter_issue(db, user_id, form, issue_id, published_at)
}

} // verus!
