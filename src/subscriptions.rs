use vstd::prelude::*;
use vstd::string::*;

use crate::ambient::{
    is_ascii_alphanumeric, new_id, now_timestamp, random_alphanumeric, string_from_chars,
};
use crate::domain::{is_valid_email, is_valid_name, SubscriberEmail, SubscriberName};
use crate::error::AppError;
use crate::store::{
    confirm_all, first_token_from, Database, DatabaseView, Subscription, SubscriptionToken,
    SubscriptionView, TokenView,
};

verus! {

/// Characters in a subscription token.
pub const SUBSCRIPTION_TOKEN_CHARS: usize = 25;

/// The fields of the public subscription form.
pub struct FormData {
    pub email: String,
    pub name: String,
}

/// The query of a confirmation link.
pub struct Parameters {
    pub subscription_token: String,
}

/// Why a subscription was refused.
#[derive(Debug, PartialEq, Eq)]
pub enum SubscribeError {
    /// The form's name or address is not acceptable.
    ValidationError(String),
    /// Something failed that the subscriber cannot fix.
    UnexpectedError(String),
}

impl SubscribeError {
    /// `400 Bad Request` for a refused form, `500` otherwise.
    pub fn status_code(&self) -> (r: u16)
        ensures
            self is ValidationError ==> r == 400,
            self is UnexpectedError ==> r == 500,
    {
        match self {
            SubscribeError::ValidationError(_) => 400,
            SubscribeError::UnexpectedError(_) => 500,
        }
    }
}

/// A subscriber whose name and address passed validation.
pub struct NewSubscriber {
    pub email: SubscriberEmail,
    pub name: SubscriberName,
}

impl NewSubscriber {
    /// Validates the form: the name first, then the address.
    pub fn try_from(value: FormData) -> (r: Result<NewSubscriber, String>)
        ensures
            r is Ok <==> is_valid_name(value.name@) && is_valid_email(value.email@),
            r matches Ok(s) ==> s.email@ == value.email@ && s.name@ == value.name@,
    {
        let name = SubscriberName::parse(value.name)?;
        let email = SubscriberEmail::parse(value.email)?;
        Ok(NewSubscriber { email, name })
    }
}

/// A token is 25 ASCII letters and digits.
pub open spec fn is_subscription_token(t: Seq<char>) -> bool {
    t.len() == SUBSCRIPTION_TOKEN_CHARS && forall|i: int|
        0 <= i < t.len() ==> is_ascii_alphanumeric(#[trigger] t[i] as u8) && (t[i] as u32) < 128
}

/// A random token of 25 ASCII letters and digits.
pub fn generate_subscription_token() -> (r: String)
    ensures
        is_subscription_token(r@),
{
    let mut chars: Vec<char> = Vec::new();
    let mut i: usize = 0;
    while i < SUBSCRIPTION_TOKEN_CHARS
        invariant
            i <= SUBSCRIPTION_TOKEN_CHARS,
            chars.len() == i,
            forall|j: int|
                0 <= j < i ==> is_ascii_alphanumeric(#[trigger] chars@[j] as u8) && (
                chars@[j] as u32) < 128,
        decreases SUBSCRIPTION_TOKEN_CHARS - i,
    {
        let b = random_alphanumeric();
        let c = b as char;
        assert(c as u8 == b && (c as u32) < 128);
        chars.push(c);
        i = i + 1;
    }
    string_from_chars(&chars)
}

/// The message that asks a new subscriber to confirm.
pub struct ConfirmationEmail {
    pub recipient: String,
    pub subject: String,
    pub html_body: String,
    pub text_body: String,
}

/// The link that confirms the subscription holding `token`.
pub open spec fn confirmation_link(base_url: Seq<char>, token: Seq<char>) -> Seq<char> {
    base_url + "/subscriptions/confirm?subscription_token="@ + token
}

/// The body of the confirmation message.
pub open spec fn confirmation_body(link: Seq<char>) -> Seq<char> {
    "Welcome to our newsletter!<br /> Click <a href=\""@ + link
        + "\">here</a> to confirm your subscription"@
}

/// Builds the confirmation message for `recipient`.
pub fn confirmation_email(recipient: &str, base_url: &str, subscription_token: &str) -> (r:
    ConfirmationEmail)
    ensures
        r.recipient@ == recipient@,
        r.subject@ == "Welcome!"@,
        r.html_body@ == confirmation_body(confirmation_link(base_url@, subscription_token@)),
        r.text_body@ == r.html_body@,
{
    let link = String::from_str(base_url).concat("/subscriptions/confirm?subscription_token=").concat(
        subscription_token,
    );
    let body = String::from_str("Welcome to our newsletter!<br /> Click <a href=\"").concat(
        link.as_str(),
    ).concat("\">here</a> to confirm your subscription");
    ConfirmationEmail {
        recipient: String::from_str(recipient),
        subject: String::from_str("Welcome!"),
        html_body: body.clone(),
        text_body: body,
    }
}

/// What subscribing with a valid form does to the store: one pending
/// subscription and its token.
pub open spec fn subscribed(
    db: DatabaseView,
    email: Seq<char>,
    name: Seq<char>,
    subscriber_id: u128,
    token: Seq<char>,
) -> DatabaseView {
    DatabaseView {
        subscriptions: db.subscriptions.push(
            SubscriptionView { id: subscriber_id, email, name, confirmed: false },
        ),
        tokens: db.tokens.push(TokenView { token, subscriber_id }),
        ..db
    }
}

/// Records a pending subscription with the given id and token and builds
/// its confirmation message; a form whose name or address is invalid is
/// refused and nothing is written.
pub fn subscribe_with(
    db: &mut Database,
    form: FormData,
    base_url: &str,
    subscriber_id: u128,
    subscription_token: String,
    subscribed_at: i64,
) -> (r: Result<ConfirmationEmail, SubscribeError>)
    requires
        old(db).wf(),
    ensures
        final(db).wf(),
        r is Ok <==> is_valid_name(form.name@) && is_valid_email(form.email@),
        r is Err ==> final(db)@ == old(db)@ && r matches Err(SubscribeError::ValidationError(_)),
        r matches Ok(mail) ==> final(db)@ == subscribed(
            old(db)@,
            form.email@,
            form.name@,
            subscriber_id,
            subscription_token@,
        ) && mail.recipient@ == form.email@ && mail.subject@ == "Welcome!"@ && mail.html_body@
            == confirmation_body(confirmation_link(base_url@, subscription_token@))
            && mail.text_body@ == mail.html_body@,
{
    let ghost email_v = form.email@;
    let ghost name_v = form.name@;
    let new_subscriber = match NewSubscriber::try_from(form) {
        Ok(s) => s,
        Err(msg) => {
            return Err(SubscribeError::ValidationError(msg));
        },
    };
    let mail = confirmation_email(
        new_subscriber.email.as_str(),
        base_url,
        subscription_token.as_str(),
    );
    insert_subscriber(db, &new_subscriber, subscriber_id, subscribed_at);
    store_token(db, subscriber_id, subscription_token);
    Ok(mail)
}

/// Stores `new_subscriber` as a pending subscription with id
/// `subscriber_id`.
pub fn insert_subscriber(
    db: &mut Database,
    new_subscriber: &NewSubscriber,
    subscriber_id: u128,
    subscribed_at: i64,
)
    requires
        old(db).wf(),
    ensures
        final(db).wf(),
        final(db)@ == (DatabaseView {
            subscriptions: old(db)@.subscriptions.push(
                SubscriptionView {
                    id: subscriber_id,
                    email: new_subscriber.email@,
                    name: new_subscriber.name@,
                    confirmed: false,
                },
            ),
            ..old(db)@
        }),
{
    db.push_subscription(
        Subscription {
            id: subscriber_id,
            email: String::from_str(new_subscriber.email.as_str()),
            name: String::from_str(new_subscriber.name.as_str()),
            subscribed_at,
            confirmed: false,
        },
    );
}

/// Stores the token that confirms `subscriber_id`.
pub fn store_token(db: &mut Database, subscriber_id: u128, subscription_token: String)
    requires
        old(db).wf(),
    ensures
        final(db).wf(),
        final(db)@ == (DatabaseView {
            tokens: old(db)@.tokens.push(TokenView { token: subscription_token@, subscriber_id }),
            ..old(db)@
        }),
{
    db.push_token(SubscriptionToken { token: subscription_token, subscriber_id });
}

/// Marks the subscriptions with id `subscriber_id` as confirmed.
pub fn confirm_subscriber(db: &mut Database, subscriber_id: u128)
    requires
        old(db).wf(),
    ensures
        final(db).wf(),
        final(db)@ == (DatabaseView {
            subscriptions: confirm_all(old(db)@.subscriptions, subscriber_id),
            ..old(db)@
        }),
{
    db.confirm_subscriptions_with_id(subscriber_id);
}

/// Records a pending subscription under a random id and a fresh token, and
/// builds its confirmation message.
pub fn subscribe(db: &mut Database, form: FormData, base_url: &str) -> (r: Result<
    ConfirmationEmail,
    SubscribeError,
>)
    requires
        old(db).wf(),
    ensures
        final(db).wf(),
        r is Ok <==> is_valid_name(form.name@) && is_valid_email(form.email@),
        r is Err ==> final(db)@ == old(db)@ && r matches Err(SubscribeError::ValidationError(_)),
        r matches Ok(mail) ==> mail.recipient@ == form.email@ && mail.subject@ == "Welcome!"@
            && mail.text_body@ == mail.html_body@,
        r matches Ok(mail) ==> exists|id: u128, token: Seq<char>|
            is_subscription_token(token) && final(db)@ == #[trigger] subscribed(
                old(db)@,
                form.email@,
                form.name@,
                id,
                token,
            ) && mail.html_body@ == confirmation_body(confirmation_link(base_url@, token)),
{
    let subscriber_id = new_id();
    let token = generate_subscription_token();
    let subscribed_at = now_timestamp();
    let r = subscribe_with(db, form, base_url, subscriber_id, token, subscribed_at);
    r
}

/// Confirms the subscriber that `token` names; an unknown token is refused
/// and nothing is written.
pub fn confirm(db: &mut Database, token: &String) -> (r: Result<(), AppError>)
    requires
        old(db).wf(),
    ensures
        final(db).wf(),
        ({
            let k = first_token_from(old(db)@.tokens, token@, 0);
            &&& k < 0 ==> r == Err::<(), AppError>(AppError::UnknownSubscriptionToken) && final(db)@
                == old(db)@
            &&& k >= 0 ==> r is Ok && final(db)@ == (DatabaseView {
                subscriptions: confirm_all(old(db)@.subscriptions, old(db)@.tokens[k].subscriber_id),
                ..old(db)@
            })
        }),
{
    match db.subscriber_for_token(token) {
        Some(id) => {
            confirm_subscriber(db, id);
            Ok(())
        },
        None => Err(AppError::UnknownSubscriptionToken),
    }
}

/// The text of `error` followed by each of its causes, outermost first:
/// the error's message and a blank line, then one `Caused by:n` entry (the letter n, then a tab) per
/// cause.
pub open spec fn error_chain_text(error: Seq<char>, causes: Seq<Seq<char>>) -> Seq<char>
    decreases causes.len(),
{
    if causes.len() == 0 {
        error + "\n\n"@
    } else {
        error_chain_text(error, causes.drop_last()) + "Caused by:n\t"@ + causes.last() + "\n"@
    }
}

/// Writes `error` and its chain of causes as [`error_chain_text`].
pub fn error_chain_fmt(error: &str, causes: &Vec<String>) -> (r: String)
    ensures
        r@ == error_chain_text(error@, causes@.map_values(|c: String| c@)),
{
    let ghost cv = causes@.map_values(|c: String| c@);
    let mut out = String::from_str(error).concat("\n\n");
    let mut i: usize = 0;
    while i < causes.len()
        invariant
            i <= causes.len(),
            cv == causes@.map_values(|c: String| c@),
            out@ == error_chain_text(error@, cv.take(i as int)),
        decreases causes.len() - i,
    {
        assert(cv.take(i + 1).drop_last() =~= cv.take(i as int));
        out = out.concat("Caused by:n\t").concat(causes[i].as_str()).concat("\n");
        i = i + 1;
    }
    assert(cv.take(causes.len() as int) =~= cv);
    out
}

} // verus!
