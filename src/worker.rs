use vstd::prelude::*;

use crate::domain::{check_email, is_valid_email};
use crate::error::AppError;
use crate::store::{
    delete_held, first_issue_from, first_unlocked_from, lock_row, release_held, Database,
    DatabaseView, IssueView,
};

verus! {

/// How one pass of the worker ended.
#[derive(Debug, PartialEq, Eq, Structural)]
pub enum ExecutionOutcome {
    /// A task was taken off the queue.
    TaskCompleted,
    /// No task was free to take.
    EmptyQueue,
}

/// One delivery to make: the claimed task and the message to send.
pub struct DeliveryJob {
    issue_id: u128,
    recipient: String,
    subject: String,
    html_body: String,
    text_body: String,
}

pub struct JobView {
    pub issue_id: u128,
    pub recipient: Seq<char>,
    pub subject: Seq<char>,
    pub html_body: Seq<char>,
    pub text_body: Seq<char>,
}

impl View for DeliveryJob {
    type V = JobView;

    closed spec fn view(&self) -> JobView {
        JobView {
            issue_id: self.issue_id,
            recipient: self.recipient@,
            subject: self.subject@,
            html_body: self.html_body@,
            text_body: self.text_body@,
        }
    }
}

impl DeliveryJob {
    pub fn issue_id(&self) -> (r: u128)
        ensures
            r == self@.issue_id,
    {
        self.issue_id
    }

    pub fn recipient(&self) -> (r: &str)
        ensures
            r@ == self@.recipient,
    {
        self.recipient.as_str()
    }

    pub fn subject(&self) -> (r: &str)
        ensures
            r@ == self@.subject,
    {
        self.subject.as_str()
    }

    pub fn html_body(&self) -> (r: &str)
        ensures
            r@ == self@.html_body,
    {
        self.html_body.as_str()
    }

    pub fn text_body(&self) -> (r: &str)
        ensures
            r@ == self@.text_body,
    {
        self.text_body.as_str()
    }
}

/// What the first half of a worker pass decided.
pub enum TaskStep {
    /// No task was free to take.
    EmptyQueue,
    /// The task's address was malformed: the task is gone, nothing is sent.
    Skipped,
    /// The task is claimed: send the job's message, then complete it.
    Deliver(DeliveryJob),
}

pub enum StepView {
    EmptyQueue,
    Skipped,
    Deliver(JobView),
    IssueMissing,
}

pub open spec fn step_view(r: Result<TaskStep, AppError>) -> StepView {
    match r {
        Ok(TaskStep::EmptyQueue) => StepView::EmptyQueue,
        Ok(TaskStep::Skipped) => StepView::Skipped,
        Ok(TaskStep::Deliver(job)) => StepView::Deliver(job@),
        Err(_) => StepView::IssueMissing,
    }
}

/// The message that delivers `issue` to `email`.
pub open spec fn job_for(email: Seq<char>, issue: IssueView) -> JobView {
    JobView {
        issue_id: issue.issue_id,
        recipient: email,
        subject: issue.title,
        html_body: issue.html_content,
        text_body: issue.text_content,
    }
}

/// The first half of a worker pass: claim the first free task; drop it if
/// its address is malformed; otherwise look up its issue and hand out the
/// message to send, keeping the task locked. A task whose issue is missing
/// is released and stays queued.
pub open spec fn execute_step(db: DatabaseView) -> (DatabaseView, StepView) {
    let k = first_unlocked_from(db.queue, 0);
    if k < 0 {
        (db, StepView::EmptyQueue)
    } else {
        let row = db.queue[k];
        let locked = lock_row(db.queue, k);
        if !is_valid_email(row.email) {
            (
                DatabaseView { queue: delete_held(locked, row.issue_id, row.email), ..db },
                StepView::Skipped,
            )
        } else {
            let i = first_issue_from(db.issues, row.issue_id, 0);
            if i < 0 {
                (
                    DatabaseView { queue: release_held(locked, row.issue_id, row.email), ..db },
                    StepView::IssueMissing,
                )
            } else {
                (
                    DatabaseView { queue: locked, ..db },
                    StepView::Deliver(job_for(row.email, db.issues[i])),
                )
            }
        }
    }
}

/// The store once the delivery `job` is done with, sent or not.
pub open spec fn complete_step(db: DatabaseView, job: JobView) -> DatabaseView {
    DatabaseView { queue: delete_held(db.queue, job.issue_id, job.recipient), ..db }
}

/// Claims the next free task and decides what to do with it (see
/// [`execute_step`]).
pub fn try_execute_task(db: &mut Database) -> (r: Result<TaskStep, AppError>)
    requires
        old(db).wf(),
    ensures
        final(db).wf(),
        (final(db)@, step_view(r)) == execute_step(old(db)@),
        r matches Err(e) ==> e == AppError::IssueNotFound,
{
    let (issue_id, email) = match db.lock_next_task() {
        None => {
            return Ok(TaskStep::EmptyQueue);
        },
        Some(task) => task,
    };
    if !check_email(email.as_str()) {
        db.delete_held_task(issue_id, &email);
        return Ok(TaskStep::Skipped);
    }
    let job = match db.get_issue(issue_id) {
        None => {
            db.release_held_task(issue_id, &email);
            return Err(AppError::IssueNotFound);
        },
        Some(issue) => DeliveryJob {
            issue_id,
            recipient: email,
            subject: issue.title.clone(),
            html_body: issue.html_content.clone(),
            text_body: issue.text_content.clone(),
        },
    };
    Ok(TaskStep::Deliver(job))
}

/// Ends a delivery, whatever the transport answered: the task leaves the
/// queue.
pub fn complete_task(db: &mut Database, job: DeliveryJob) -> (r: ExecutionOutcome)
    requires
        old(db).wf(),
    ensures
        final(db).wf(),
        final(db)@ == complete_step(old(db)@, job@),
        r == ExecutionOutcome::TaskCompleted,
{
    db.delete_held_task(job.issue_id, &job.recipient);
    ExecutionOutcome::TaskCompleted
}

/// The outcome that a worker pass reports for a step.
pub fn outcome_of(step: &TaskStep) -> (r: ExecutionOutcome)
    ensures
        (step is EmptyQueue) <==> r == ExecutionOutcome::EmptyQueue,
{
    match step {
        TaskStep::EmptyQueue => ExecutionOutcome::EmptyQueue,
        _ => ExecutionOutcome::TaskCompleted,
    }
}

/// Seconds to wait after each kind of worker pass.
pub struct WorkerSchedule {
    pub idle_secs: u64,
    pub backoff_secs: u64,
}

/// Ten seconds when the queue was empty, one after an error.
pub const DEFAULT_IDLE_SECS: u64 = 10;

pub const DEFAULT_BACKOFF_SECS: u64 = 1;

impl WorkerSchedule {
    pub fn new() -> (r: WorkerSchedule)
        ensures
            r.idle_secs == DEFAULT_IDLE_SECS,
            r.backoff_secs == DEFAULT_BACKOFF_SECS,
    {
        WorkerSchedule { idle_secs: DEFAULT_IDLE_SECS, backoff_secs: DEFAULT_BACKOFF_SECS }
    }

    /// How long to sleep after a pass: the idle interval on an empty queue,
    /// the backoff after an error, nothing after a completed task.
    pub fn delay_after(&self, outcome: &Result<ExecutionOutcome, AppError>) -> (secs: u64)
        ensures
            outcome matches Ok(ExecutionOutcome::EmptyQueue) ==> secs == self.idle_secs,
            outcome matches Ok(ExecutionOutcome::TaskCompleted) ==> secs == 0,
            outcome is Err ==> secs == self.backoff_secs,
    {
        match outcome {
            Ok(ExecutionOutcome::EmptyQueue) => self.idle_secs,
            Ok(ExecutionOutcome::TaskCompleted) => 0,
            Err(_) => self.backoff_secs,
        }
    }
}

} // verus!
