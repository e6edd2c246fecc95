use vstd::prelude::*;

use crate::response::{HttpResponse, ResponseView};

verus! {

/// A row of the idempotency table: the response saved for one
/// `(user, key)`; `response` is `None` while the key is only claimed.
pub struct IdempotencyRecord {
    pub user_id: u128,
    pub key: String,
    pub created_at: i64,
    pub response: Option<HttpResponse>,
}

pub struct RecordView {
    pub user_id: u128,
    pub key: Seq<char>,
    pub response: Option<ResponseView>,
}

impl View for IdempotencyRecord {
    type V = RecordView;

    open spec fn view(&self) -> RecordView {
        RecordView {
            user_id: self.user_id,
            key: self.key@,
            response: match self.response {
                Some(r) => Some(r@),
                None => None,
            },
        }
    }
}

/// A published newsletter issue.
pub struct NewsletterIssue {
    pub issue_id: u128,
    pub title: String,
    pub text_content: String,
    pub html_content: String,
    pub published_at: i64,
}

pub struct IssueView {
    pub issue_id: u128,
    pub title: Seq<char>,
    pub text_content: Seq<char>,
    pub html_content: Seq<char>,
}

impl View for NewsletterIssue {
    type V = IssueView;

    open spec fn view(&self) -> IssueView {
        IssueView {
            issue_id: self.issue_id,
            title: self.title@,
            text_content: self.text_content@,
            html_content: self.html_content@,
        }
    }
}

/// A pending delivery of one issue to one address; `locked` while a worker
/// holds it.
pub struct DeliveryTask {
    pub issue_id: u128,
    pub subscriber_email: String,
    pub locked: bool,
}

pub struct TaskView {
    pub issue_id: u128,
    pub email: Seq<char>,
    pub locked: bool,
}

impl View for DeliveryTask {
    type V = TaskView;

    open spec fn view(&self) -> TaskView {
        TaskView { issue_id: self.issue_id, email: self.subscriber_email@, locked: self.locked }
    }
}

/// A subscriber and whether the address has been confirmed.
pub struct Subscription {
    pub id: u128,
    pub email: String,
    pub name: String,
    pub subscribed_at: i64,
    pub confirmed: bool,
}

pub struct SubscriptionView {
    pub id: u128,
    pub email: Seq<char>,
    pub name: Seq<char>,
    pub confirmed: bool,
}

impl View for Subscription {
    type V = SubscriptionView;

    open spec fn view(&self) -> SubscriptionView {
        SubscriptionView {
            id: self.id,
            email: self.email@,
            name: self.name@,
            confirmed: self.confirmed,
        }
    }
}

/// A confirmation token and the subscriber it confirms.
pub struct SubscriptionToken {
    pub token: String,
    pub subscriber_id: u128,
}

pub struct TokenView {
    pub token: Seq<char>,
    pub subscriber_id: u128,
}

impl View for SubscriptionToken {
    type V = TokenView;

    open spec fn view(&self) -> TokenView {
        TokenView { token: self.token@, subscriber_id: self.subscriber_id }
    }
}

/// An administrator account.
pub struct User {
    pub user_id: u128,
    pub username: String,
    pub password_hash: String,
}

pub struct UserView {
    pub user_id: u128,
    pub username: Seq<char>,
    pub password_hash: Seq<char>,
}

impl View for User {
    type V = UserView;

    open spec fn view(&self) -> UserView {
        UserView {
            user_id: self.user_id,
            username: self.username@,
            password_hash: self.password_hash@,
        }
    }
}

pub struct DatabaseView {
    pub users: Seq<UserView>,
    pub idempotency: Seq<RecordView>,
    pub issues: Seq<IssueView>,
    pub queue: Seq<TaskView>,
    pub subscriptions: Seq<SubscriptionView>,
    pub tokens: Seq<TokenView>,
}

/// The durable state: idempotency records, issues, the delivery queue,
/// subscriptions and their tokens.
pub struct Database {
    users: Vec<User>,
    idempotency: Vec<IdempotencyRecord>,
    issues: Vec<NewsletterIssue>,
    queue: Vec<DeliveryTask>,
    subscriptions: Vec<Subscription>,
    tokens: Vec<SubscriptionToken>,
}

impl View for Database {
    type V = DatabaseView;

    closed spec fn view(&self) -> DatabaseView {
        DatabaseView {
            users: self.users@.map_values(|u: User| u@),
            idempotency: self.idempotency@.map_values(|r: IdempotencyRecord| r@),
            issues: self.issues@.map_values(|i: NewsletterIssue| i@),
            queue: self.queue@.map_values(|t: DeliveryTask| t@),
            subscriptions: self.subscriptions@.map_values(|s: Subscription| s@),
            tokens: self.tokens@.map_values(|t: SubscriptionToken| t@),
        }
    }
}

pub open spec fn record_is(r: RecordView, user_id: u128, key: Seq<char>) -> bool {
    r.user_id == user_id && r.key == key
}

/// No two idempotency records share a `(user, key)`.
pub open spec fn keys_unique(recs: Seq<RecordView>) -> bool {
    forall|i: int, j: int|
        0 <= i < recs.len() && 0 <= j < recs.len() && i != j ==> !record_is(
            #[trigger] recs[i],
            recs[j].user_id,
            #[trigger] recs[j].key,
        )
}

impl DatabaseView {
    pub open spec fn wf(self) -> bool {
        keys_unique(self.idempotency)
    }

    pub open spec fn has_record(self, user_id: u128, key: Seq<char>) -> bool {
        exists|i: int|
            0 <= i < self.idempotency.len() && record_is(
                #[trigger] self.idempotency[i],
                user_id,
                key,
            )
    }

    /// Where the record of `(user, key)` stands.
    pub open spec fn record_index(self, user_id: u128, key: Seq<char>) -> int {
        choose|i: int|
            0 <= i < self.idempotency.len() && record_is(
                #[trigger] self.idempotency[i],
                user_id,
                key,
            )
    }

    /// The response saved for `(user, key)`: `None` where the key is unknown
    /// or only claimed.
    pub open spec fn saved_response(self, user_id: u128, key: Seq<char>) -> Option<ResponseView> {
        if self.has_record(user_id, key) {
            self.idempotency[self.record_index(user_id, key)].response
        } else {
            None
        }
    }

    /// Nothing is locked in the delivery queue.
    pub open spec fn no_locks(self) -> bool {
        forall|i: int| 0 <= i < self.queue.len() ==> !(#[trigger] self.queue[i]).locked
    }
}

/// The idempotency record of a key claimed but not yet answered.
pub open spec fn placeholder(user_id: u128, key: Seq<char>) -> RecordView {
    RecordView { user_id, key, response: None }
}

/// Index of the first unlocked row at or after `i`, or -1.
pub open spec fn first_unlocked_from(q: Seq<TaskView>, i: int) -> int
    decreases q.len() - i,
{
    if i < 0 || i >= q.len() {
        -1
    } else if !q[i].locked {
        i
    } else {
        first_unlocked_from(q, i + 1)
    }
}

/// Index of the first locked row for `(issue, email)` at or after `i`, or -1.
pub open spec fn first_held_from(q: Seq<TaskView>, issue_id: u128, email: Seq<char>, i: int) -> int
    decreases q.len() - i,
{
    if i < 0 || i >= q.len() {
        -1
    } else if q[i].locked && q[i].issue_id == issue_id && q[i].email == email {
        i
    } else {
        first_held_from(q, issue_id, email, i + 1)
    }
}

/// The queue with row `k` locked.
pub open spec fn lock_row(q: Seq<TaskView>, k: int) -> Seq<TaskView> {
    q.update(k, TaskView { locked: true, ..q[k] })
}

/// The queue without the first locked row for `(issue_id, email)`.
pub open spec fn delete_held(q: Seq<TaskView>, issue_id: u128, email: Seq<char>) -> Seq<TaskView> {
    let k = first_held_from(q, issue_id, email, 0);
    if k < 0 {
        q
    } else {
        q.remove(k)
    }
}

/// The queue with the first locked row for `(issue_id, email)` unlocked.
pub open spec fn release_held(q: Seq<TaskView>, issue_id: u128, email: Seq<char>) -> Seq<TaskView> {
    let k = first_held_from(q, issue_id, email, 0);
    if k < 0 {
        q
    } else {
        q.update(k, TaskView { locked: false, ..q[k] })
    }
}

/// Index of the first issue with id `issue_id` at or after `i`, or -1.
pub open spec fn first_issue_from(issues: Seq<IssueView>, issue_id: u128, i: int) -> int
    decreases issues.len() - i,
{
    if i < 0 || i >= issues.len() {
        -1
    } else if issues[i].issue_id == issue_id {
        i
    } else {
        first_issue_from(issues, issue_id, i + 1)
    }
}

/// Index of the first token row for `token` at or after `i`, or -1.
pub open spec fn first_token_from(tokens: Seq<TokenView>, token: Seq<char>, i: int) -> int
    decreases tokens.len() - i,
{
    if i < 0 || i >= tokens.len() {
        -1
    } else if tokens[i].token == token {
        i
    } else {
        first_token_from(tokens, token, i + 1)
    }
}

pub proof fn lemma_first_unlocked_range(q: Seq<TaskView>, i: int)
    requires
        0 <= i,
    ensures
        first_unlocked_from(q, i) == -1 || (i <= first_unlocked_from(q, i) < q.len()
            && !q[first_unlocked_from(q, i)].locked),
        forall|j: int| i <= j < q.len() && j < first_unlocked_from(q, i) ==> (#[trigger] q[j]).locked,
        first_unlocked_from(q, i) == -1 ==> forall|j: int|
            i <= j < q.len() ==> (#[trigger] q[j]).locked,
    decreases q.len() - i,
{
    if i < q.len() && q[i].locked {
        lemma_first_unlocked_range(q, i + 1);
    }
}

pub proof fn lemma_first_held_range(q: Seq<TaskView>, issue_id: u128, email: Seq<char>, i: int)
    requires
        0 <= i,
    ensures
        first_held_from(q, issue_id, email, i) == -1 || (i <= first_held_from(q, issue_id, email, i)
            < q.len() && q[first_held_from(q, issue_id, email, i)].locked
            && q[first_held_from(q, issue_id, email, i)].issue_id == issue_id
            && q[first_held_from(q, issue_id, email, i)].email == email),
    decreases q.len() - i,
{
    if i < q.len() {
        lemma_first_held_range(q, issue_id, email, i + 1);
    }
}

pub proof fn lemma_first_issue_range(issues: Seq<IssueView>, issue_id: u128, i: int)
    requires
        0 <= i,
    ensures
        first_issue_from(issues, issue_id, i) == -1 || (i <= first_issue_from(issues, issue_id, i)
            < issues.len() && issues[first_issue_from(issues, issue_id, i)].issue_id == issue_id),
    decreases issues.len() - i,
{
    if i < issues.len() {
        lemma_first_issue_range(issues, issue_id, i + 1);
    }
}

/// Index of the first user named `username` at or after `i`, or -1.
pub open spec fn first_user_named_from(users: Seq<UserView>, username: Seq<char>, i: int) -> int
    decreases users.len() - i,
{
    if i < 0 || i >= users.len() {
        -1
    } else if users[i].username == username {
        i
    } else {
        first_user_named_from(users, username, i + 1)
    }
}

/// Index of the first user with id `user_id` at or after `i`, or -1.
pub open spec fn first_user_from(users: Seq<UserView>, user_id: u128, i: int) -> int
    decreases users.len() - i,
{
    if i < 0 || i >= users.len() {
        -1
    } else if users[i].user_id == user_id {
        i
    } else {
        first_user_from(users, user_id, i + 1)
    }
}

/// The users after every account with id `user_id` takes `hash`.
pub open spec fn set_hash_all(users: Seq<UserView>, user_id: u128, hash: Seq<char>) -> Seq<UserView> {
    users.map_values(
        |u: UserView|
            if u.user_id == user_id {
                UserView { password_hash: hash, ..u }
            } else {
                u
            },
    )
}

/// The addresses of the confirmed subscribers, in table order.
pub open spec fn confirmed_emails(subs: Seq<SubscriptionView>) -> Seq<Seq<char>>
    decreases subs.len(),
{
    if subs.len() == 0 {
        Seq::empty()
    } else {
        let rest = confirmed_emails(subs.drop_last());
        if subs.last().confirmed {
            rest.push(subs.last().email)
        } else {
            rest
        }
    }
}

/// One unlocked queue row per address, all for `issue_id`.
pub open spec fn tasks_for(issue_id: u128, emails: Seq<Seq<char>>) -> Seq<TaskView> {
    emails.map_values(|e: Seq<char>| TaskView { issue_id, email: e, locked: false })
}

/// The subscriptions after confirming every row with id `id`.
pub open spec fn confirm_all(subs: Seq<SubscriptionView>, id: u128) -> Seq<SubscriptionView> {
    subs.map_values(
        |s: SubscriptionView|
            if s.id == id {
                SubscriptionView { confirmed: true, ..s }
            } else {
                s
            },
    )
}

impl Database {
    pub open spec fn wf(&self) -> bool {
        self@.wf()
    }

    pub fn new() -> (r: Database)
        ensures
            r.wf(),
            r@.users.len() == 0,
            r@.idempotency.len() == 0,
            r@.issues.len() == 0,
            r@.queue.len() == 0,
            r@.subscriptions.len() == 0,
            r@.tokens.len() == 0,
    {
        Database {
            users: Vec::new(),
            idempotency: Vec::new(),
            issues: Vec::new(),
            queue: Vec::new(),
            subscriptions: Vec::new(),
            tokens: Vec::new(),
        }
    }

    /// Where the record of `(user_id, key)` is, if there is one.
    pub fn find_record(&self, user_id: u128, key: &String) -> (r: Option<usize>)
        requires
            self.wf(),
        ensures
            r is Some <==> self@.has_record(user_id, key@),
            r matches Some(i) ==> i == self@.record_index(user_id, key@) && i
                < self@.idempotency.len(),
    {
        let ghost v = self@;
        let mut i: usize = 0;
        while i < self.idempotency.len()
            invariant
                v == self@,
                v.wf(),
                i <= self.idempotency.len(),
                forall|j: int| 0 <= j < i ==> !record_is(#[trigger] v.idempotency[j], user_id, key@),
            decreases self.idempotency.len() - i,
        {
            let rec = &self.idempotency[i];
            if rec.user_id == user_id && rec.key == *key {
                assert(record_is(v.idempotency[i as int], user_id, key@));
                proof {
                    let k = v.record_index(user_id, key@);
                    assert(record_is(v.idempotency[k], user_id, key@));
                    if k != i {
                        assert(!record_is(
                            v.idempotency[k],
                            v.idempotency[i as int].user_id,
                            v.idempotency[i as int].key,
                        ));
                    }
                }
                return Some(i);
            }
            i = i + 1;
        }
        None
    }

    /// Claims `(user_id, key)` unless it is claimed already ("insert, do
    /// nothing on conflict"); says whether a row was inserted.
    pub fn insert_placeholder(&mut self, user_id: u128, key: &String, created_at: i64) -> (inserted:
        bool)
        requires
            old(self).wf(),
        ensures
            final(self).wf(),
            inserted == !old(self)@.has_record(user_id, key@),
            inserted ==> final(self)@ == (DatabaseView {
                idempotency: old(self)@.idempotency.push(placeholder(user_id, key@)),
                ..old(self)@
            }),
            !inserted ==> final(self)@ == old(self)@,
    {
        match self.find_record(user_id, key) {
            Some(_) => false,
            None => {
                let ghost before = self@;
                self.idempotency.push(
                    IdempotencyRecord { user_id, key: key.clone(), created_at, response: None },
                );
                assert(self@.idempotency =~= before.idempotency.push(placeholder(user_id, key@)));
                assert(self@ == (DatabaseView {
                    idempotency: before.idempotency.push(placeholder(user_id, key@)),
                    ..before
                }));
                assert(keys_unique(self@.idempotency)) by {
                    assert forall|i: int, j: int|
                        0 <= i < self@.idempotency.len() && 0 <= j < self@.idempotency.len() && i
                            != j implies !record_is(
                        #[trigger] self@.idempotency[i],
                        self@.idempotency[j].user_id,
                        #[trigger] self@.idempotency[j].key,
                    ) by {
                        let n = before.idempotency.len() as int;
                        if i == n {
                            assert(!record_is(before.idempotency[j], user_id, key@));
                        } else if j == n {
                            assert(!record_is(before.idempotency[i], user_id, key@));
                        }
                    }
                }
                true
            },
        }
    }

    /// The response saved for `(user_id, key)`, if it was answered.
    pub fn saved_response(&self, user_id: u128, key: &String) -> (r: Option<HttpResponse>)
        requires
            self.wf(),
        ensures
            r is Some <==> self@.saved_response(user_id, key@) is Some,
            r matches Some(resp) ==> self@.saved_response(user_id, key@) == Some(resp@),
    {
        match self.find_record(user_id, key) {
            Some(i) => match &self.idempotency[i].response {
                Some(resp) => Some(resp.duplicate()),
                None => None,
            },
            None => None,
        }
    }

    /// Drops the record of `(user_id, key)`, if there is one.
    pub fn remove_record(&mut self, user_id: u128, key: &String)
        requires
            old(self).wf(),
        ensures
            final(self).wf(),
            old(self)@.has_record(user_id, key@) ==> final(self)@ == (DatabaseView {
                idempotency: old(self)@.idempotency.remove(
                    old(self)@.record_index(user_id, key@),
                ),
                ..old(self)@
            }),
            !old(self)@.has_record(user_id, key@) ==> final(self)@ == old(self)@,
    {
        match self.find_record(user_id, key) {
            Some(i) => {
                let ghost before = self@;
                self.idempotency.remove(i);
                assert(self@.idempotency =~= before.idempotency.remove(i as int));
                assert(keys_unique(self@.idempotency)) by {
                    assert forall|a: int, b: int|
                        0 <= a < self@.idempotency.len() && 0 <= b < self@.idempotency.len() && a
                            != b implies !record_is(
                        #[trigger] self@.idempotency[a],
                        self@.idempotency[b].user_id,
                        #[trigger] self@.idempotency[b].key,
                    ) by {
                        let a0 = if a < i { a } else { a + 1 };
                        let b0 = if b < i { b } else { b + 1 };
                        assert(self@.idempotency[a] == before.idempotency[a0]);
                        assert(self@.idempotency[b] == before.idempotency[b0]);
                    }
                }
            },
            None => {},
        }
    }

    /// Stores `response` as the answer for `(user_id, key)`; says whether
    /// the record was there to hold it.
    pub fn finalize_record(&mut self, user_id: u128, key: &String, response: HttpResponse) -> (found:
        bool)
        requires
            old(self).wf(),
        ensures
            final(self).wf(),
            found == old(self)@.has_record(user_id, key@),
            found ==> final(self)@ == (DatabaseView {
                idempotency: old(self)@.idempotency.update(
                    old(self)@.record_index(user_id, key@),
                    RecordView { user_id, key: key@, response: Some(response@) },
                ),
                ..old(self)@
            }),
            !found ==> final(self)@ == old(self)@,
    {
        match self.find_record(user_id, key) {
            Some(i) => {
                let ghost before = self@;
                let created_at = self.idempotency[i].created_at;
                let rec = IdempotencyRecord {
                    user_id,
                    key: key.clone(),
                    created_at,
                    response: Some(response),
                };
                self.idempotency.set(i, rec);
                let ghost nv = RecordView { user_id, key: key@, response: Some(response@) };
                assert(self@.idempotency =~= before.idempotency.update(i as int, nv));
                assert(keys_unique(self@.idempotency)) by {
                    assert forall|a: int, b: int|
                        0 <= a < self@.idempotency.len() && 0 <= b < self@.idempotency.len() && a
                            != b implies !record_is(
                        #[trigger] self@.idempotency[a],
                        self@.idempotency[b].user_id,
                        #[trigger] self@.idempotency[b].key,
                    ) by {
                        assert(record_is(before.idempotency[i as int], user_id, key@));
                        assert(!record_is(
                            before.idempotency[a],
                            before.idempotency[b].user_id,
                            before.idempotency[b].key,
                        ));
                    }
                }
                true
            },
            None => false,
        }
    }

    /// Adds `issues` and `tasks`, in order, after the rows already stored.
    pub fn append_rows(&mut self, issues: Vec<NewsletterIssue>, tasks: Vec<DeliveryTask>)
        requires
            old(self).wf(),
        ensures
            final(self).wf(),
            final(self)@ == (DatabaseView {
                issues: old(self)@.issues + issues@.map_values(|i: NewsletterIssue| i@),
                queue: old(self)@.queue + tasks@.map_values(|t: DeliveryTask| t@),
                ..old(self)@
            }),
    {
        let ghost before = self@;
        let mut issues = issues;
        let mut tasks = tasks;
        let ghost new_issues = issues@;
        let ghost new_tasks = tasks@;
        self.issues.append(&mut issues);
        self.queue.append(&mut tasks);
        assert(self@.issues =~= before.issues + new_issues.map_values(|i: NewsletterIssue| i@));
        assert(self@.queue =~= before.queue + new_tasks.map_values(|t: DeliveryTask| t@));
    }

    /// The addresses of the confirmed subscribers, in table order.
    pub fn confirmed_emails(&self) -> (r: Vec<String>)
        ensures
            r@.map_values(|e: String| e@) == confirmed_emails(self@.subscriptions),
    {
        let ghost subs = self@.subscriptions;
        let mut out: Vec<String> = Vec::new();
        let mut i: usize = 0;
        while i < self.subscriptions.len()
            invariant
                subs == self@.subscriptions,
                i <= self.subscriptions.len(),
                out@.map_values(|e: String| e@) == confirmed_emails(subs.take(i as int)),
            decreases self.subscriptions.len() - i,
        {
            assert(subs.take(i + 1).drop_last() =~= subs.take(i as int));
            let ghost prev = out@;
            if self.subscriptions[i].confirmed {
                out.push(self.subscriptions[i].email.clone());
                assert(out@.map_values(|e: String| e@) =~= prev.map_values(|e: String| e@).push(
                    subs[i as int].email,
                ));
            }
            i = i + 1;
        }
        assert(subs.take(self.subscriptions.len() as int) =~= subs);
        out
    }

    /// Locks the first unlocked queue row and hands out its issue and
    /// address; `None` where every row is locked or the queue is empty.
    pub fn lock_next_task(&mut self) -> (r: Option<(u128, String)>)
        requires
            old(self).wf(),
        ensures
            final(self).wf(),
            ({
                let k = first_unlocked_from(old(self)@.queue, 0);
                &&& k < 0 ==> r is None && final(self)@ == old(self)@
                &&& k >= 0 ==> (r matches Some((id, e)) && id == old(self)@.queue[k].issue_id
                    && e@ == old(self)@.queue[k].email && final(self)@ == (DatabaseView {
                    queue: lock_row(old(self)@.queue, k),
                    ..old(self)@
                }))
            }),
    {
        let ghost before = self@;
        let mut i: usize = 0;
        while i < self.queue.len() && self.queue[i].locked
            invariant
                before == self@,
                i <= self.queue.len(),
                first_unlocked_from(before.queue, 0) == first_unlocked_from(before.queue, i as int),
            decreases self.queue.len() - i,
        {
            i = i + 1;
        }
        if i == self.queue.len() {
            return None;
        }
        let issue_id = self.queue[i].issue_id;
        let email = self.queue[i].subscriber_email.clone();
        let t = DeliveryTask { issue_id, subscriber_email: email.clone(), locked: true };
        self.queue.set(i, t);
        assert(self@.queue =~= before.queue.update(
            i as int,
            TaskView { locked: true, ..before.queue[i as int] },
        ));
        Some((issue_id, email))
    }

    /// Deletes the first locked row for `(issue_id, email)`, if any.
    pub fn delete_held_task(&mut self, issue_id: u128, email: &String)
        requires
            old(self).wf(),
        ensures
            final(self).wf(),
            final(self)@ == (DatabaseView {
                queue: delete_held(old(self)@.queue, issue_id, email@),
                ..old(self)@
            }),
    {
        let ghost before = self@;
        match self.find_held_task(issue_id, email) {
            Some(i) => {
                self.queue.remove(i);
                assert(self@.queue =~= before.queue.remove(i as int));
            },
            None => {},
        }
    }

    fn find_held_task(&self, issue_id: u128, email: &String) -> (r: Option<usize>)
        ensures
            ({
                let k = first_held_from(self@.queue, issue_id, email@, 0);
                &&& k < 0 ==> r is None
                &&& k >= 0 ==> (r matches Some(i) && i == k && k < self@.queue.len()
                    && self@.queue[k].issue_id == issue_id && self@.queue[k].email == email@)
            }),
    {
        proof {
            lemma_first_held_range(self@.queue, issue_id, email@, 0);
        }
        let ghost before = self@;
        let mut i: usize = 0;
        while i < self.queue.len()
            invariant
                before == self@,
                i <= self.queue.len(),
                first_held_from(before.queue, issue_id, email@, 0) == first_held_from(
                    before.queue,
                    issue_id,
                    email@,
                    i as int,
                ),
            decreases self.queue.len() - i,
        {
            if self.queue[i].locked && self.queue[i].issue_id == issue_id
                && self.queue[i].subscriber_email == *email {
                return Some(i);
            }
            i = i + 1;
        }
        None
    }

    /// Unlocks the first locked row for `(issue_id, email)`, if any.
    pub fn release_held_task(&mut self, issue_id: u128, email: &String)
        requires
            old(self).wf(),
        ensures
            final(self).wf(),
            final(self)@ == (DatabaseView {
                queue: release_held(old(self)@.queue, issue_id, email@),
                ..old(self)@
            }),
    {
        let ghost before = self@;
        match self.find_held_task(issue_id, email) {
            Some(i) => {
                let t = DeliveryTask {
                    issue_id,
                    subscriber_email: self.queue[i].subscriber_email.clone(),
                    locked: false,
                };
                self.queue.set(i, t);
                assert(self@.queue =~= before.queue.update(
                    i as int,
                    TaskView { locked: false, ..before.queue[i as int] },
                ));
            },
            None => {},
        }
    }

    /// The first stored issue with id `issue_id`.
    pub fn get_issue(&self, issue_id: u128) -> (r: Option<&NewsletterIssue>)
        ensures
            ({
                let k = first_issue_from(self@.issues, issue_id, 0);
                &&& k < 0 ==> r is None
                &&& k >= 0 ==> (r matches Some(issue) && issue@ == self@.issues[k] && k
                    < self@.issues.len() && issue.issue_id == issue_id)
            }),
    {
        proof {
            lemma_first_issue_range(self@.issues, issue_id, 0);
        }
        let ghost v = self@;
        let mut i: usize = 0;
        while i < self.issues.len()
            invariant
                v == self@,
                i <= self.issues.len(),
                first_issue_from(v.issues, issue_id, 0) == first_issue_from(
                    v.issues,
                    issue_id,
                    i as int,
                ),
            decreases self.issues.len() - i,
        {
            if self.issues[i].issue_id == issue_id {
                return Some(&self.issues[i]);
            }
            i = i + 1;
        }
        None
    }

    /// Adds a subscription.
    pub fn push_subscription(&mut self, sub: Subscription)
        requires
            old(self).wf(),
        ensures
            final(self).wf(),
            final(self)@ == (DatabaseView {
                subscriptions: old(self)@.subscriptions.push(sub@),
                ..old(self)@
            }),
    {
        let ghost before = self@;
        let ghost sv = sub@;
        self.subscriptions.push(sub);
        assert(self@.subscriptions =~= before.subscriptions.push(sv));
    }

    /// Adds a confirmation token.
    pub fn push_token(&mut self, token: SubscriptionToken)
        requires
            old(self).wf(),
        ensures
            final(self).wf(),
            final(self)@ == (DatabaseView { tokens: old(self)@.tokens.push(token@), ..old(self)@ }),
    {
        let ghost before = self@;
        let ghost tv = token@;
        self.tokens.push(token);
        assert(self@.tokens =~= before.tokens.push(tv));
    }

    /// The subscriber that `token` confirms.
    pub fn subscriber_for_token(&self, token: &String) -> (r: Option<u128>)
        ensures
            ({
                let k = first_token_from(self@.tokens, token@, 0);
                &&& k < 0 ==> r is None
                &&& k >= 0 ==> r == Some(self@.tokens[k].subscriber_id)
            }),
    {
        let ghost v = self@;
        let mut i: usize = 0;
        while i < self.tokens.len()
            invariant
                v == self@,
                i <= self.tokens.len(),
                first_token_from(v.tokens, token@, 0) == first_token_from(v.tokens, token@, i as int),
            decreases self.tokens.len() - i,
        {
            if self.tokens[i].token == *token {
                return Some(self.tokens[i].subscriber_id);
            }
            i = i + 1;
        }
        None
    }

    /// Marks every subscription with id `id` as confirmed.
    pub fn confirm_subscriptions_with_id(&mut self, id: u128)
        requires
            old(self).wf(),
        ensures
            final(self).wf(),
            final(self)@ == (DatabaseView {
                subscriptions: confirm_all(old(self)@.subscriptions, id),
                ..old(self)@
            }),
    {
        let ghost before = self@;
        let mut subs: Vec<Subscription> = Vec::new();
        let mut i: usize = 0;
        while i < self.subscriptions.len()
            invariant
                before == self@,
                i <= self.subscriptions.len(),
                subs.len() == i,
                forall|j: int|
                    0 <= j < i ==> #[trigger] subs@[j]@ == confirm_all(before.subscriptions, id)[j],
            decreases self.subscriptions.len() - i,
        {
            let cur = &self.subscriptions[i];
            let s = Subscription {
                id: cur.id,
                email: cur.email.clone(),
                name: cur.name.clone(),
                subscribed_at: cur.subscribed_at,
                confirmed: cur.confirmed || cur.id == id,
            };
            subs.push(s);
            i = i + 1;
        }
        self.subscriptions = subs;
        assert(self@.subscriptions =~= confirm_all(before.subscriptions, id));
    }

    /// Adds an account.
    pub fn insert_user(&mut self, user: User)
        requires
            old(self).wf(),
        ensures
            final(self).wf(),
            final(self)@ == (DatabaseView { users: old(self)@.users.push(user@), ..old(self)@ }),
    {
        let ghost before = self@;
        let ghost uv = user@;
        self.users.push(user);
        assert(self@.users =~= before.users.push(uv));
    }

    /// The id and password hash of the first account named `username`.
    pub fn stored_credentials(&self, username: &String) -> (r: Option<(u128, String)>)
        ensures
            ({
                let k = first_user_named_from(self@.users, username@, 0);
                &&& k < 0 ==> r is None
                &&& k >= 0 ==> (r matches Some((id, hash)) && id == self@.users[k].user_id
                    && hash@ == self@.users[k].password_hash)
            }),
    {
        let ghost v = self@;
        let mut i: usize = 0;
        while i < self.users.len()
            invariant
                v == self@,
                i <= self.users.len(),
                first_user_named_from(v.users, username@, 0) == first_user_named_from(
                    v.users,
                    username@,
                    i as int,
                ),
            decreases self.users.len() - i,
        {
            if self.users[i].username == *username {
                return Some((self.users[i].user_id, self.users[i].password_hash.clone()));
            }
            i = i + 1;
        }
        None
    }

    /// The name of the first account with id `user_id`.
    pub fn username_of(&self, user_id: u128) -> (r: Option<String>)
        ensures
            ({
                let k = first_user_from(self@.users, user_id, 0);
                &&& k < 0 ==> r is None
                &&& k >= 0 ==> (r matches Some(name) && name@ == self@.users[k].username)
            }),
    {
        let ghost v = self@;
        let mut i: usize = 0;
        while i < self.users.len()
            invariant
                v == self@,
                i <= self.users.len(),
                first_user_from(v.users, user_id, 0) == first_user_from(v.users, user_id, i as int),
            decreases self.users.len() - i,
        {
            if self.users[i].user_id == user_id {
                return Some(self.users[i].username.clone());
            }
            i = i + 1;
        }
        None
    }

    /// Gives every account with id `user_id` the password hash `hash`.
    pub fn set_password_hash(&mut self, user_id: u128, hash: &String)
        requires
            old(self).wf(),
        ensures
            final(self).wf(),
            final(self)@ == (DatabaseView {
                users: set_hash_all(old(self)@.users, user_id, hash@),
                ..old(self)@
            }),
    {
        let ghost before = self@;
        let mut users: Vec<User> = Vec::new();
        let mut i: usize = 0;
        while i < self.users.len()
            invariant
                before == self@,
                i <= self.users.len(),
                users.len() == i,
                forall|j: int|
                    0 <= j < i ==> #[trigger] users@[j]@ == set_hash_all(before.users, user_id, hash@)[j],
            decreases self.users.len() - i,
        {
            let cur = &self.users[i];
            let h = if cur.user_id == user_id {
                hash.clone()
            } else {
                cur.password_hash.clone()
            };
            users.push(User { user_id: cur.user_id, username: cur.username.clone(), password_hash: h });
            i = i + 1;
        }
        self.users = users;
        assert(self@.users =~= set_hash_all(before.users, user_id, hash@));
    }

    /// Number of idempotency records, claimed or answered.
    pub fn idempotency_len(&self) -> (r: usize)
        ensures
            r == self@.idempotency.len(),
    {
        self.idempotency.len()
    }

    /// Number of stored issues.
    pub fn issues_len(&self) -> (r: usize)
        ensures
            r == self@.issues.len(),
    {
        self.issues.len()
    }

    /// Number of queued delivery tasks, locked or not.
    pub fn queue_len(&self) -> (r: usize)
        ensures
            r == self@.queue.len(),
    {
        self.queue.len()
    }

    /// Number of subscriptions.
    pub fn subscriptions_len(&self) -> (r: usize)
        ensures
            r == self@.subscriptions.len(),
    {
        self.subscriptions.len()
    }

    /// The delivery task at position `i` of the queue.
    pub fn task_at(&self, i: usize) -> (r: &DeliveryTask)
        requires
            i < self@.queue.len(),
        ensures
            r@ == self@.queue[i as int],
    {
        &self.queue[i]
    }

    /// The subscription at position `i`.
    pub fn subscription_at(&self, i: usize) -> (r: &Subscription)
        requires
            i < self@.subscriptions.len(),
        ensures
            r@ == self@.subscriptions[i as int],
    {
        &self.subscriptions[i]
    }
}

} // verus!
