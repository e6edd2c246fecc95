use vstd::prelude::*;

use crate::domain::{is_valid_email, is_valid_idempotency_key};
use crate::error::AppError;
use crate::idempotency::{rollback, TransactionView};
use crate::newsletter::{publish, FormView};
use crate::store::{
    delete_held, first_held_from, first_unlocked_from, keys_unique, lock_row, placeholder,
    record_is, DatabaseView, RecordView, TaskView,
};
use crate::store::{confirmed_emails, first_issue_from, tasks_for, SubscriptionView};
use crate::worker::{complete_step, execute_step, JobView, StepView};

verus! {

/// Adding a record under a key that no record holds keeps keys unique, and
/// the new record is the one found for its key.
pub proof fn lemma_push_record(db: DatabaseView, rec: RecordView)
    requires
        db.wf(),
        !db.has_record(rec.user_id, rec.key),
    ensures
        ({
            let db1 = DatabaseView { idempotency: db.idempotency.push(rec), ..db };
            &&& db1.wf()
            &&& db1.has_record(rec.user_id, rec.key)
            &&& db1.record_index(rec.user_id, rec.key) == db.idempotency.len()
        }),
{
    let recs = db.idempotency.push(rec);
    let n = db.idempotency.len() as int;
    assert(record_is(recs[n], rec.user_id, rec.key));
    assert(keys_unique(recs)) by {
        assert forall|i: int, j: int|
            0 <= i < recs.len() && 0 <= j < recs.len() && i != j implies !record_is(
            #[trigger] recs[i],
            recs[j].user_id,
            #[trigger] recs[j].key,
        ) by {
            if i == n {
                assert(!record_is(db.idempotency[j], rec.user_id, rec.key));
            } else if j == n {
                assert(!record_is(db.idempotency[i], rec.user_id, rec.key));
            }
        }
    }
    let db1 = DatabaseView { idempotency: recs, ..db };
    let k = db1.record_index(rec.user_id, rec.key);
    assert(record_is(recs[k], rec.user_id, rec.key));
    if k != n {
        assert(!record_is(recs[k], recs[n].user_id, recs[n].key));
    }
}

/// Rolling back a transaction that claimed a new key leaves the store as it
/// was before the claim: no placeholder, and none of the transaction's
/// issues or delivery tasks.
pub proof fn lemma_rollback_restores(db: DatabaseView, tx: TransactionView)
    requires
        db.wf(),
        !db.has_record(tx.user_id, tx.key),
    ensures
        rollback(
            DatabaseView {
                idempotency: db.idempotency.push(placeholder(tx.user_id, tx.key)),
                ..db
            },
            tx,
        ) == db,
{
    lemma_push_record(db, placeholder(tx.user_id, tx.key));
    let db1 = DatabaseView {
        idempotency: db.idempotency.push(placeholder(tx.user_id, tx.key)),
        ..db
    };
    assert(db1.idempotency.remove(db.idempotency.len() as int) =~= db.idempotency);
}

/// Publishing again with a key that a publish already answered replays
/// that answer and writes nothing: one issue and one set of delivery tasks
/// per key, whatever the number of submissions.
pub proof fn lemma_publish_replays(
    db: DatabaseView,
    user_id: u128,
    form: FormView,
    again: FormView,
    issue_id: u128,
    other_id: u128,
)
    requires
        db.wf(),
        again.idempotency_key == form.idempotency_key,
        publish(db, user_id, form, issue_id).1 is Ok,
    ensures
        publish(publish(db, user_id, form, issue_id).0, user_id, again, other_id) == publish(
            db,
            user_id,
            form,
            issue_id,
        ),
        publish(db, user_id, form, issue_id).0.wf(),
        !db.has_record(user_id, form.idempotency_key) ==> publish(
            db,
            user_id,
            form,
            issue_id,
        ).0.issues.len() == db.issues.len() + 1,
{
    let key = form.idempotency_key;
    if !db.has_record(user_id, key) {
        let (db1, r1) = publish(db, user_id, form, issue_id);
        let rec = RecordView {
            user_id,
            key,
            response: Some(crate::newsletter::published_response()),
        };
        lemma_push_record(db, rec);
        assert(db1.idempotency == db.idempotency.push(rec));
        assert(db1.saved_response(user_id, key) == Some(crate::newsletter::published_response()));
    }
}

/// While a first publish holds its key and has saved no response, another
/// publish with the same key fails and writes nothing.
pub proof fn lemma_claimed_key_refused(
    db: DatabaseView,
    user_id: u128,
    form: FormView,
    issue_id: u128,
)
    requires
        db.wf(),
        is_valid_idempotency_key(form.idempotency_key),
        db.has_record(user_id, form.idempotency_key),
        db.saved_response(user_id, form.idempotency_key) is None,
    ensures
        publish(db, user_id, form, issue_id) == (db, Err::<
            crate::response::ResponseView,
            AppError,
        >(AppError::MissingSavedResponse)),
{
}

/// A locked row for `(issue_id, email)` at `j` or earlier is found.
pub proof fn lemma_first_held_found(
    q: Seq<TaskView>,
    issue_id: u128,
    email: Seq<char>,
    i: int,
    j: int,
)
    requires
        0 <= i <= j < q.len(),
        q[j].locked,
        q[j].issue_id == issue_id,
        q[j].email == email,
    ensures
        i <= first_held_from(q, issue_id, email, i) <= j,
    decreases j - i,
{
    if !(q[i].locked && q[i].issue_id == issue_id && q[i].email == email) {
        lemma_first_held_found(q, issue_id, email, i + 1, j);
    }
}

/// A task whose stored address is malformed is dropped from the queue
/// without a delivery; where no other row holds the same issue and
/// address, no row for them is left.
pub proof fn lemma_malformed_email_skipped(db: DatabaseView)
    requires
        first_unlocked_from(db.queue, 0) >= 0,
        !is_valid_email(db.queue[first_unlocked_from(db.queue, 0)].email),
    ensures
        execute_step(db).1 == StepView::Skipped,
        execute_step(db).0.queue.len() == db.queue.len() - 1,
        ({
            let k = first_unlocked_from(db.queue, 0);
            let row = db.queue[k];
            (forall|j: int|
                0 <= j < db.queue.len() && j != k ==> !((#[trigger] db.queue[j]).issue_id
                    == row.issue_id && db.queue[j].email == row.email)) ==> forall|j: int|
                0 <= j < execute_step(db).0.queue.len() ==> !((#[trigger] execute_step(
                    db,
                ).0.queue[j]).issue_id == row.issue_id && execute_step(db).0.queue[j].email
                    == row.email)
        }),
{
    let k = first_unlocked_from(db.queue, 0);
    crate::store::lemma_first_unlocked_range(db.queue, 0);
    let row = db.queue[k];
    let locked = lock_row(db.queue, k);
    lemma_first_held_found(locked, row.issue_id, row.email, 0, k);
    crate::store::lemma_first_held_range(locked, row.issue_id, row.email, 0);
    let h = first_held_from(locked, row.issue_id, row.email, 0);
    if forall|j: int|
        0 <= j < db.queue.len() && j != k ==> !((#[trigger] db.queue[j]).issue_id == row.issue_id
            && db.queue[j].email == row.email) {
        if h != k {
            assert(locked[h] == db.queue[h]);
        }
        assert(h == k);
        let after = execute_step(db).0.queue;
        assert(after == locked.remove(k));
        assert forall|j: int| 0 <= j < after.len() implies !((#[trigger] after[j]).issue_id
            == row.issue_id && after[j].email == row.email) by {
            if j < k {
                assert(after[j] == db.queue[j]);
            } else {
                assert(after[j] == db.queue[j + 1]);
            }
        }
    }
}

/// Of two passes over a queue with a single free row, the first claims it
/// and, where it hands it out for delivery, the second finds nothing free.
pub proof fn lemma_lock_exclusive(db: DatabaseView)
    requires
        db.queue.len() == 1,
        !db.queue[0].locked,
    ensures
        execute_step(db).1 != StepView::EmptyQueue,
        execute_step(db).1 is Deliver ==> execute_step(execute_step(db).0).1
            == StepView::EmptyQueue,
{
    assert(first_unlocked_from(db.queue, 0) == 0);
    let db1 = execute_step(db).0;
    if execute_step(db).1 is Deliver {
        assert(db1.queue[0].locked);
        assert(first_unlocked_from(db1.queue, 1) == -1);
    }
}

/// The confirmed addresses are the addresses of the subscriptions whose
/// status is confirmed, in table order.
pub proof fn lemma_confirmed_emails_filter(subs: Seq<SubscriptionView>)
    ensures
        confirmed_emails(subs) == subs.filter(|s: SubscriptionView| s.confirmed).map_values(
            |s: SubscriptionView| s.email,
        ),
    decreases subs.len(),
{
    reveal(Seq::filter);
    if subs.len() > 0 {
        lemma_confirmed_emails_filter(subs.drop_last());
        let f = subs.drop_last().filter(|s: SubscriptionView| s.confirmed);
        if subs.last().confirmed {
            assert(f.push(subs.last()).map_values(|s: SubscriptionView| s.email) =~= f.map_values(
                |s: SubscriptionView| s.email,
            ).push(subs.last().email));
        }
    } else {
        assert(confirmed_emails(subs) =~= subs.filter(|s: SubscriptionView| s.confirmed).map_values(
            |s: SubscriptionView| s.email,
        ));
    }
}

/// A first publish adds exactly one delivery task per confirmed
/// subscription, each for the new issue and unlocked, and each for the
/// address of a confirmed subscription; the rows already queued stay.
pub proof fn lemma_fan_out(db: DatabaseView, user_id: u128, form: FormView, issue_id: u128)
    requires
        db.wf(),
        is_valid_idempotency_key(form.idempotency_key),
        !db.has_record(user_id, form.idempotency_key),
    ensures
        ({
            let q = publish(db, user_id, form, issue_id).0.queue;
            &&& q.len() == db.queue.len() + db.subscriptions.filter(
                |s: SubscriptionView| s.confirmed,
            ).len()
            &&& q.subrange(0, db.queue.len() as int) == db.queue
            &&& forall|j: int|
                db.queue.len() <= j < q.len() ==> (#[trigger] q[j]).issue_id == issue_id
                    && !q[j].locked && exists|i: int|
                    0 <= i < db.subscriptions.len() && db.subscriptions[i].confirmed
                        && db.subscriptions[i].email == q[j].email
        }),
{
    let subs = db.subscriptions;
    let pred = |s: SubscriptionView| s.confirmed;
    let f = subs.filter(pred);
    lemma_confirmed_emails_filter(subs);
    let q = publish(db, user_id, form, issue_id).0.queue;
    let added = tasks_for(issue_id, confirmed_emails(subs));
    assert(q == db.queue + added);
    assert(q.subrange(0, db.queue.len() as int) =~= db.queue);
    assert forall|j: int| db.queue.len() <= j < q.len() implies (#[trigger] q[j]).issue_id
        == issue_id && !q[j].locked && exists|i: int|
        0 <= i < subs.len() && subs[i].confirmed && subs[i].email == q[j].email by {
        let m = j - db.queue.len();
        assert(q[j] == added[m]);
        assert(f.contains(f[m]));
        subs.lemma_filter_contains_rev(pred, f[m]);
        subs.lemma_filter_pred(pred, m);
        let i = choose|i: int| 0 <= i < subs.len() && subs[i] == f[m];
        assert(subs[i].confirmed && subs[i].email == q[j].email);
    }
}

/// The addresses of `q` that pass validation, front first.
pub open spec fn valid_emails(q: Seq<TaskView>) -> Seq<Seq<char>>
    decreases q.len(),
{
    if q.len() == 0 {
        Seq::empty()
    } else if is_valid_email(q[0].email) {
        seq![q[0].email] + valid_emails(q.drop_first())
    } else {
        valid_emails(q.drop_first())
    }
}

/// Runs up to `n` worker passes, each completing the delivery it hands out,
/// and stops at the first pass that takes no task; returns the store and
/// the deliveries made, in order.
pub open spec fn drain(db: DatabaseView, n: nat) -> (DatabaseView, Seq<JobView>)
    decreases n,
{
    if n == 0 {
        (db, Seq::empty())
    } else {
        let (db1, step) = execute_step(db);
        match step {
            StepView::Deliver(job) => {
                let (db2, jobs) = drain(complete_step(db1, job), (n - 1) as nat);
                (db2, seq![job] + jobs)
            },
            StepView::Skipped => drain(db1, (n - 1) as nat),
            _ => (db, Seq::empty()),
        }
    }
}

/// Every queued task names a stored issue.
pub open spec fn issues_present(db: DatabaseView) -> bool {
    forall|j: int|
        0 <= j < db.queue.len() ==> first_issue_from(db.issues, (#[trigger] db.queue[j]).issue_id, 0)
            >= 0
}

/// One worker pass over a queue with no locks takes its first row off the
/// queue, delivering to it exactly where its address is valid.
pub proof fn lemma_pass_takes_first(db: DatabaseView)
    requires
        db.no_locks(),
        issues_present(db),
        db.queue.len() > 0,
    ensures
        ({
            let (db1, step) = execute_step(db);
            let after = match step {
                StepView::Deliver(job) => complete_step(db1, job),
                _ => db1,
            };
            &&& after == DatabaseView { queue: db.queue.drop_first(), ..db }
            &&& is_valid_email(db.queue[0].email) ==> (step matches StepView::Deliver(job)
                && job.recipient == db.queue[0].email && job.issue_id == db.queue[0].issue_id)
            &&& !is_valid_email(db.queue[0].email) ==> step == StepView::Skipped
        }),
{
    let q = db.queue;
    assert(first_unlocked_from(q, 0) == 0);
    let locked = lock_row(q, 0);
    assert(first_held_from(locked, q[0].issue_id, q[0].email, 0) == 0);
    assert(locked.remove(0) =~= q.drop_first());
    if is_valid_email(q[0].email) {
        assert(first_issue_from(db.issues, q[0].issue_id, 0) >= 0);
        crate::store::lemma_first_issue_range(db.issues, q[0].issue_id, 0);
    }
}

/// Running the worker over a queue with no locks, whose tasks all name
/// stored issues, empties the queue in as many passes as it has rows,
/// delivers once to each valid address and to no other, and the next pass
/// finds the queue empty.
pub proof fn lemma_queue_drain(db: DatabaseView)
    requires
        db.no_locks(),
        issues_present(db),
    ensures
        ({
            let (db2, jobs) = drain(db, db.queue.len());
            &&& db2 == DatabaseView { queue: Seq::empty(), ..db }
            &&& jobs.map_values(|j: JobView| j.recipient) == valid_emails(db.queue)
            &&& execute_step(db2).1 == StepView::EmptyQueue
        }),
    decreases db.queue.len(),
{
    let q = db.queue;
    if q.len() == 0 {
        assert(q =~= Seq::<TaskView>::empty());
        assert(first_unlocked_from(q, 0) == -1);
    } else {
        lemma_pass_takes_first(db);
        let rest = DatabaseView { queue: q.drop_first(), ..db };
        assert(rest.no_locks());
        assert(issues_present(rest)) by {
            assert forall|j: int| 0 <= j < rest.queue.len() implies first_issue_from(
                rest.issues,
                (#[trigger] rest.queue[j]).issue_id,
                0,
            ) >= 0 by {
                assert(rest.queue[j] == q[j + 1]);
            }
        }
        lemma_queue_drain(rest);
        let (db1, step) = execute_step(db);
        let (db2, jobs) = drain(rest, rest.queue.len());
        if is_valid_email(q[0].email) {
            let job = step->Deliver_0;
            assert(drain(db, q.len()) == (db2, seq![job] + jobs));
            assert((seq![job] + jobs).map_values(|j: JobView| j.recipient) =~= seq![q[0].email]
                + jobs.map_values(|j: JobView| j.recipient));
        } else {
            assert(drain(db, q.len()) == (db2, jobs));
        }
    }
}

/// An issue with id `issue_id` at `j` or later is found.
pub proof fn lemma_first_issue_found(issues: Seq<crate::store::IssueView>, issue_id: u128, i: int, j: int)
    requires
        0 <= i <= j < issues.len(),
        issues[j].issue_id == issue_id,
    ensures
        i <= first_issue_from(issues, issue_id, i) <= j,
    decreases j - i,
{
    if issues[i].issue_id != issue_id {
        lemma_first_issue_found(issues, issue_id, i + 1, j);
    }
}

/// Where every address is valid, the worker delivers to all of them.
pub proof fn lemma_valid_emails_all(issue_id: u128, emails: Seq<Seq<char>>)
    requires
        forall|i: int| 0 <= i < emails.len() ==> is_valid_email(#[trigger] emails[i]),
    ensures
        valid_emails(tasks_for(issue_id, emails)) == emails,
    decreases emails.len(),
{
    let q = tasks_for(issue_id, emails);
    if emails.len() == 0 {
        assert(q.len() == 0);
        assert(valid_emails(q) =~= emails);
    } else {
        assert(q.drop_first() =~= tasks_for(issue_id, emails.drop_first()));
        lemma_valid_emails_all(issue_id, emails.drop_first());
        assert(is_valid_email(emails[0]));
        assert(seq![emails[0]] + emails.drop_first() =~= emails);
    }
}

/// After a first publish onto an empty queue, where every confirmed
/// subscription holds a valid address, running the worker until the queue
/// is empty delivers the new issue once to each confirmed subscriber, in
/// table order, and leaves no task behind.
pub proof fn lemma_publish_then_drain(db: DatabaseView, user_id: u128, form: FormView, issue_id: u128)
    requires
        db.wf(),
        db.queue.len() == 0,
        is_valid_idempotency_key(form.idempotency_key),
        !db.has_record(user_id, form.idempotency_key),
        forall|i: int|
            0 <= i < db.subscriptions.len() && (#[trigger] db.subscriptions[i]).confirmed
                ==> is_valid_email(db.subscriptions[i].email),
    ensures
        ({
            let db1 = publish(db, user_id, form, issue_id).0;
            let (db2, jobs) = drain(db1, db1.queue.len());
            &&& db2.queue.len() == 0
            &&& jobs.map_values(|j: JobView| j.recipient) == confirmed_emails(db.subscriptions)
            &&& jobs.len() == db.subscriptions.filter(|s: SubscriptionView| s.confirmed).len()
            &&& forall|k: int| 0 <= k < jobs.len() ==> (#[trigger] jobs[k]).issue_id == issue_id
            &&& execute_step(db2).1 == StepView::EmptyQueue
        }),
{
    let db1 = publish(db, user_id, form, issue_id).0;
    let emails = confirmed_emails(db.subscriptions);
    lemma_fan_out(db, user_id, form, issue_id);
    lemma_confirmed_emails_filter(db.subscriptions);
    assert(db1.queue =~= tasks_for(issue_id, emails));
    assert forall|i: int| 0 <= i < emails.len() implies is_valid_email(#[trigger] emails[i]) by {
        assert(db1.queue[i].email == emails[i]);
    }
    lemma_valid_emails_all(issue_id, emails);
    let last = db1.issues.len() - 1;
    lemma_first_issue_found(db1.issues, issue_id, 0, last);
    assert(db1.no_locks());
    assert(issues_present(db1));
    lemma_queue_drain(db1);
    let (db2, jobs) = drain(db1, db1.queue.len());
    lemma_drain_issue_ids(db1, db1.queue.len(), issue_id);
    assert(jobs.map_values(|j: JobView| j.recipient).len() == jobs.len());
}

/// Where every queued task is for `issue_id`, so is every delivery.
pub proof fn lemma_drain_issue_ids(db: DatabaseView, n: nat, issue_id: u128)
    requires
        db.no_locks(),
        issues_present(db),
        forall|j: int| 0 <= j < db.queue.len() ==> (#[trigger] db.queue[j]).issue_id == issue_id,
    ensures
        forall|k: int|
            0 <= k < drain(db, n).1.len() ==> (#[trigger] drain(db, n).1[k]).issue_id == issue_id,
    decreases n,
{
    if n > 0 && db.queue.len() > 0 {
        lemma_pass_takes_first(db);
        let rest = DatabaseView { queue: db.queue.drop_first(), ..db };
        assert(issues_present(rest)) by {
            assert forall|j: int| 0 <= j < rest.queue.len() implies first_issue_from(
                rest.issues,
                (#[trigger] rest.queue[j]).issue_id,
                0,
            ) >= 0 by {
                assert(rest.queue[j] == db.queue[j + 1]);
            }
        }
        assert(forall|j: int| 0 <= j < rest.queue.len() ==> rest.queue[j] == db.queue[j + 1]);
        lemma_drain_issue_ids(rest, (n - 1) as nat, issue_id);
        let step = execute_step(db).1;
        let tail = drain(rest, (n - 1) as nat).1;
        if is_valid_email(db.queue[0].email) {
            let job = step->Deliver_0;
            assert(drain(db, n).1 == seq![job] + tail);
            assert forall|k: int| 0 <= k < drain(db, n).1.len() implies (#[trigger] drain(
                db,
                n,
            ).1[k]).issue_id == issue_id by {
                if k > 0 {
                    assert(drain(db, n).1[k] == tail[k - 1]);
                }
            }
        } else {
            assert(drain(db, n).1 == tail);
        }
    } else if n > 0 {
        assert(first_unlocked_from(db.queue, 0) == -1);
    }
}

/// Publishes `form` as `user_id` once per id in `ids`, one call after the
/// other; returns the store and the answers in order.
pub open spec fn publish_each(db: DatabaseView, user_id: u128, form: FormView, ids: Seq<u128>) -> (
    DatabaseView,
    Seq<Result<crate::response::ResponseView, AppError>>,
)
    decreases ids.len(),
{
    if ids.len() == 0 {
        (db, Seq::empty())
    } else {
        let (db1, r) = publish(db, user_id, form, ids[0]);
        let (db2, rs) = publish_each(db1, user_id, form, ids.drop_first());
        (db2, seq![r] + rs)
    }
}

/// Once a publish with `form` has answered, every further publish with the
/// same form replays that answer and writes nothing.
pub proof fn lemma_replays_after_first(
    db: DatabaseView,
    user_id: u128,
    form: FormView,
    first_id: u128,
    ids: Seq<u128>,
)
    requires
        db.wf(),
        publish(db, user_id, form, first_id).1 is Ok,
    ensures
        ({
            let (db1, r1) = publish(db, user_id, form, first_id);
            let (dbn, rs) = publish_each(db1, user_id, form, ids);
            &&& dbn == db1
            &&& rs.len() == ids.len()
            &&& forall|i: int| 0 <= i < rs.len() ==> #[trigger] rs[i] == r1
        }),
    decreases ids.len(),
{
    if ids.len() > 0 {
        lemma_publish_replays(db, user_id, form, form, first_id, ids[0]);
        lemma_replays_after_first(db, user_id, form, first_id, ids.drop_first());
        let (db1, r1) = publish(db, user_id, form, first_id);
        let rest = publish_each(db1, user_id, form, ids.drop_first()).1;
        assert forall|i: int| 0 <= i < ids.len() implies #[trigger] publish_each(
            db1,
            user_id,
            form,
            ids,
        ).1[i] == r1 by {
            if i > 0 {
                assert(publish_each(db1, user_id, form, ids).1[i] == rest[i - 1]);
            }
        }
    }
}

/// Submitting the same publish form N times under a new key, one call after
/// the other, makes exactly one issue and one set of delivery tasks (one per
/// confirmed subscriber), and every submission gets the same answer: the
/// redirect to the newsletters page.
pub proof fn lemma_publish_many(db: DatabaseView, user_id: u128, form: FormView, ids: Seq<u128>)
    requires
        db.wf(),
        is_valid_idempotency_key(form.idempotency_key),
        !db.has_record(user_id, form.idempotency_key),
        ids.len() >= 1,
    ensures
        ({
            let (dbn, rs) = publish_each(db, user_id, form, ids);
            &&& rs.len() == ids.len()
            &&& forall|i: int|
                0 <= i < rs.len() ==> #[trigger] rs[i] == Ok::<
                    crate::response::ResponseView,
                    AppError,
                >(crate::newsletter::published_response())
            &&& dbn.issues.len() == db.issues.len() + 1
            &&& dbn.queue == db.queue + tasks_for(ids[0], confirmed_emails(db.subscriptions))
            &&& dbn == publish(db, user_id, form, ids[0]).0
        }),
{
    lemma_publish_replays(db, user_id, form, form, ids[0], ids[0]);
    lemma_replays_after_first(db, user_id, form, ids[0], ids.drop_first());
    let (db1, r1) = publish(db, user_id, form, ids[0]);
    let rest = publish_each(db1, user_id, form, ids.drop_first()).1;
    assert forall|i: int| 0 <= i < ids.len() implies #[trigger] publish_each(db, user_id, form, ids).1[i]
        == r1 by {
        if i > 0 {
            assert(publish_each(db, user_id, form, ids).1[i] == rest[i - 1]);
        }
    }
}

} // verus!
