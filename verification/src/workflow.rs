//! The subscription workflow: the sign-up state machine that sequences
//! validation, transactional persistence, token issuance and the
//! confirmation email, and the separate confirmation-redemption path.
//!
//! Each suspending step (a store statement, the outbound email) is an
//! action handed to the caller; the caller reports the outcome back as an
//! event. Every decision in between is made — and proved — here.

use vstd::prelude::*;
use vstd::pervasive::unreached;
use vstd::string::StringExecFns;
use crate::domain::NewSubscriber;
use crate::domain::SubscribeForm;
use crate::domain::valid_form;
use crate::errors::StoreTokenError;
use crate::errors::SubscribeError;
use crate::store::StoreModel;
use crate::store::SubscriberStatus;
use crate::store::has_token_string;
use crate::store::confirm_effect;
use crate::store::pushed_subscriber;
use crate::store::pushed_token;
use crate::store::generate_subscriber_id;
use crate::token::generate_subscription_token;
use crate::token::valid_token;

verus! {

/// The confirmation link: the base URL, the fixed confirmation path, and
/// the token as its query parameter.
pub open spec fn confirmation_link_of(base_url: Seq<char>, token: Seq<char>) -> Seq<char> {
    base_url + "/subscriptions/confirm?subscription_token="@ + token
}

/// The plain-text body of a confirmation email for this link.
pub open spec fn text_body_of(link: Seq<char>) -> Seq<char> {
    "Welcome to our newsletter. Please confirm your subscription: "@ + link
}

/// The HTML body of a confirmation email for this link.
pub open spec fn html_body_of(link: Seq<char>) -> Seq<char> {
    "Welcome to our newsletter. Please <a href=\""@ + link
        + "\">confirm</a> your subscription"@
}

/// One outbound confirmation email, ready for the transport.
pub struct EmailMessage {
    pub recipient: String,
    pub subject: String,
    pub html_body: String,
    pub text_body: String,
}

/// The message is addressed to `recipient` and both bodies carry exactly
/// the confirmation link for `base_url` and `token`.
pub open spec fn confirmation_email_for(
    m: EmailMessage,
    recipient: Seq<char>,
    base_url: Seq<char>,
    token: Seq<char>,
) -> bool {
    &&& m.recipient@ == recipient
    &&& m.subject@ == "Welcome"@
    &&& m.html_body@ == html_body_of(confirmation_link_of(base_url, token))
    &&& m.text_body@ == text_body_of(confirmation_link_of(base_url, token))
}

/// Builds the confirmation link for this base URL and token.
pub fn confirmation_link(base_url: &str, token: &str) -> (r: String)
    ensures
        r@ == confirmation_link_of(base_url@, token@),
{
    let mut r = String::from_str(base_url);
    r.append("/subscriptions/confirm?subscription_token=");
    r.append(token);
    r
}

/// Builds the confirmation email: subject `Welcome`, and an HTML and a
/// plain-text body each carrying the one confirmation link.
pub fn build_confirmation_email(recipient: &str, base_url: &str, token: &str) -> (m: EmailMessage)
    ensures
        confirmation_email_for(m, recipient@, base_url@, token@),
{
    let link = confirmation_link(base_url, token);
    let mut text_body = String::from_str("Welcome to our newsletter. Please confirm your subscription: ");
    text_body.append(link.as_str());
    let mut html_body = String::from_str("Welcome to our newsletter. Please <a href=\"");
    html_body.append(link.as_str());
    html_body.append("\">confirm</a> your subscription");
    EmailMessage {
        recipient: String::from_str(recipient),
        subject: String::from_str("Welcome"),
        html_body,
        text_body,
    }
}

/// The stages one sign-up attempt moves through. A state holds exactly
/// what the remaining steps still need.
pub enum SignupState {
    /// Validation failed; nothing was or will be touched.
    Rejected { reason: String },
    /// Validation succeeded; a transaction is being opened.
    Validated { subscriber: NewSubscriber, base_url: String },
    /// The transaction is open; the subscriber row is being inserted under
    /// a freshly drawn identifier.
    TransactionOpen { subscriber: NewSubscriber, base_url: String, subscriber_id: u128 },
    /// The subscriber row is staged; a freshly drawn token is being stored
    /// in the same transaction.
    Persisted { subscriber: NewSubscriber, base_url: String, subscriber_id: u128, token: String },
    /// The token row is staged; the transaction is being committed.
    TokenIssued { subscriber: NewSubscriber, base_url: String, token: String },
    /// Both rows are durable; the confirmation email is being sent.
    Committed,
    /// The email went out and the attempt was acknowledged.
    Acknowledged,
    /// A persistence or email step failed; the attempt is over.
    Failed { error: SubscribeError },
}

/// The outcome of the one action the workflow is waiting for, reported
/// back by the caller; an error carries the underlying description.
pub enum SignupEvent {
    TransactionOpened(Result<(), String>),
    SubscriberInserted(Result<(), String>),
    TokenStored(Result<(), StoreTokenError>),
    TransactionCommitted(Result<(), String>),
    EmailDispatched(Result<(), String>),
}

/// What the caller must do next. Every suspending step of the workflow —
/// each store statement and the outbound email — appears here.
pub enum SignupAction {
    /// Open a transaction against the store.
    BeginTransaction,
    /// Insert this subscriber, pending, under this identifier, inside the
    /// open transaction.
    InsertSubscriber { subscriber_id: u128, email: String, name: String },
    /// Store this token for this subscriber, inside the open transaction.
    StoreToken { subscriber_id: u128, token: String },
    /// Commit the open transaction.
    CommitTransaction,
    /// Send this confirmation email.
    SendEmail { message: EmailMessage },
    /// Answer the client with this status; the attempt is over.
    Respond { status: u16 },
}

/// The event a state is waiting for; terminal states wait for none.
pub open spec fn event_fits(state: SignupState, event: SignupEvent) -> bool {
    match state {
        SignupState::Validated { .. } => event is TransactionOpened,
        SignupState::TransactionOpen { .. } => event is SubscriberInserted,
        SignupState::Persisted { .. } => event is TokenStored,
        SignupState::TokenIssued { .. } => event is TransactionCommitted,
        SignupState::Committed => event is EmailDispatched,
        _ => false,
    }
}

/// Starts one sign-up attempt: validates the form. An invalid form is
/// rejected with a 400 before anything else happens; a valid one keeps its
/// two fields unchanged and asks for a transaction.
pub fn start_signup(form: SubscribeForm, base_url: String) -> (r: (SignupState, SignupAction))
    ensures
        !valid_form(form) ==> r.0 is Rejected && (r.1 matches SignupAction::Respond { status }
            && status == 400),
        valid_form(form) ==> {
            &&& r.0 matches SignupState::Validated { subscriber, base_url: b }
                && subscriber.name@ == form.name@ && subscriber.email@ == form.email@ && b@
                == base_url@
            &&& r.1 is BeginTransaction
        },
{
    match NewSubscriber::try_from(form) {
        Ok(subscriber) => (
            SignupState::Validated { subscriber, base_url },
            SignupAction::BeginTransaction,
        ),
        Err(reason) => (SignupState::Rejected { reason }, SignupAction::Respond { status: 400 }),
    }
}

/// Advances one sign-up attempt by the outcome of the step it was waiting
/// for: the sequencing of the whole workflow, each success moving to the
/// next step and each failure ending the attempt with a 500 that names the
/// failed stage.
pub fn signup_step(state: SignupState, event: SignupEvent) -> (r: (SignupState, SignupAction))
    requires
        event_fits(state, event),
    ensures
        state matches SignupState::Validated { subscriber, base_url } ==> (match event {
            SignupEvent::TransactionOpened(Ok(_)) => {
                &&& r.0 matches SignupState::TransactionOpen {
                    subscriber: s2,
                    base_url: b2,
                    subscriber_id: id,
                } && s2 == subscriber && b2 == base_url && (
                r.1 matches SignupAction::InsertSubscriber { subscriber_id, email, name }
                    && subscriber_id == id && email@ == subscriber.email@ && name@
                    == subscriber.name@)
            },
            SignupEvent::TransactionOpened(Err(e)) => {
                &&& r.0 matches SignupState::Failed { error } && error == SubscribeError::PoolError(
                    e,
                )
                &&& r.1 matches SignupAction::Respond { status } && status == 500
            },
            _ => true,
        }),
        state matches SignupState::TransactionOpen { subscriber, base_url, subscriber_id } ==> (
        match event {
            SignupEvent::SubscriberInserted(Ok(_)) => {
                &&& r.0 matches SignupState::Persisted {
                    subscriber: s2,
                    base_url: b2,
                    subscriber_id: id2,
                    token,
                } && s2 == subscriber && b2 == base_url && id2 == subscriber_id && valid_token(
                    token@,
                ) && (r.1 matches SignupAction::StoreToken { subscriber_id: id3, token: t3 }
                    && id3 == subscriber_id && t3@ == token@)
            },
            SignupEvent::SubscriberInserted(Err(e)) => {
                &&& r.0 matches SignupState::Failed { error } && error
                    == SubscribeError::InsertSubscriberError(e)
                &&& r.1 matches SignupAction::Respond { status } && status == 500
            },
            _ => true,
        }),
        state matches SignupState::Persisted { subscriber, base_url, subscriber_id, token } ==> (
        match event {
            SignupEvent::TokenStored(Ok(_)) => {
                &&& r.0 matches SignupState::TokenIssued {
                    subscriber: s2,
                    base_url: b2,
                    token: t2,
                } && s2 == subscriber && b2 == base_url && t2 == token
                &&& r.1 is CommitTransaction
            },
            SignupEvent::TokenStored(Err(e)) => {
                &&& r.0 matches SignupState::Failed { error } && error
                    == SubscribeError::StoreTokenError(e)
                &&& r.1 matches SignupAction::Respond { status } && status == 500
            },
            _ => true,
        }),
        state matches SignupState::TokenIssued { subscriber, base_url, token } ==> (match event {
            SignupEvent::TransactionCommitted(Ok(_)) => {
                &&& r.0 is Committed
                &&& r.1 matches SignupAction::SendEmail { message } && confirmation_email_for(
                    message,
                    subscriber.email@,
                    base_url@,
                    token@,
                )
            },
            SignupEvent::TransactionCommitted(Err(e)) => {
                &&& r.0 matches SignupState::Failed { error } && error
                    == SubscribeError::TransactionCommitError(e)
                &&& r.1 matches SignupAction::Respond { status } && status == 500
            },
            _ => true,
        }),
        state is Committed ==> (match event {
            SignupEvent::EmailDispatched(Ok(_)) => {
                &&& r.0 is Acknowledged
                &&& r.1 matches SignupAction::Respond { status } && status == 200
            },
            SignupEvent::EmailDispatched(Err(e)) => {
                &&& r.0 matches SignupState::Failed { error } && error
                    == SubscribeError::SendEmailError(e)
                &&& r.1 matches SignupAction::Respond { status } && status == 500
            },
            _ => true,
        }),
{
    match (state, event) {
        (SignupState::Validated { subscriber, base_url }, SignupEvent::TransactionOpened(res)) => {
            match res {
                Ok(_) => {
                    let subscriber_id = generate_subscriber_id();
                    let email = String::from_str(subscriber.email.as_ref());
                    let name = String::from_str(subscriber.name.as_ref());
                    (
                        SignupState::TransactionOpen { subscriber, base_url, subscriber_id },
                        SignupAction::InsertSubscriber { subscriber_id, email, name },
                    )
                },
                Err(e) => (
                    SignupState::Failed { error: SubscribeError::PoolError(e) },
                    SignupAction::Respond { status: 500 },
                ),
            }
        },
        (
            SignupState::TransactionOpen { subscriber, base_url, subscriber_id },
            SignupEvent::SubscriberInserted(res),
        ) => {
            match res {
                Ok(_) => {
                    let token = generate_subscription_token();
                    let token_copy = String::from_str(token.as_str());
                    (
                        SignupState::Persisted { subscriber, base_url, subscriber_id, token },
                        SignupAction::StoreToken { subscriber_id, token: token_copy },
                    )
                },
                Err(e) => (
                    SignupState::Failed { error: SubscribeError::InsertSubscriberError(e) },
                    SignupAction::Respond { status: 500 },
                ),
            }
        },
        (
            SignupState::Persisted { subscriber, base_url, subscriber_id: _, token },
            SignupEvent::TokenStored(res),
        ) => {
            match res {
                Ok(_) => (
                    SignupState::TokenIssued { subscriber, base_url, token },
                    SignupAction::CommitTransaction,
                ),
                Err(e) => (
                    SignupState::Failed { error: SubscribeError::StoreTokenError(e) },
                    SignupAction::Respond { status: 500 },
                ),
            }
        },
        (
            SignupState::TokenIssued { subscriber, base_url, token },
            SignupEvent::TransactionCommitted(res),
        ) => {
            match res {
                Ok(_) => {
                    let message = build_confirmation_email(
                        subscriber.email.as_ref(),
                        base_url.as_str(),
                        token.as_str(),
                    );
                    (SignupState::Committed, SignupAction::SendEmail { message })
                },
                Err(e) => (
                    SignupState::Failed { error: SubscribeError::TransactionCommitError(e) },
                    SignupAction::Respond { status: 500 },
                ),
            }
        },
        (SignupState::Committed, SignupEvent::EmailDispatched(res)) => {
            match res {
                Ok(_) => (SignupState::Acknowledged, SignupAction::Respond { status: 200 }),
                Err(e) => (
                    SignupState::Failed { error: SubscribeError::SendEmailError(e) },
                    SignupAction::Respond { status: 500 },
                ),
            }
        },
        _ => unreached(),
    }
}

/// Decision for one confirmation request: a missing token parameter is
/// answered 400 before the store is touched; a present one is redeemed.
pub enum ConfirmAction {
    Respond { status: u16 },
    RedeemToken { token: String },
}

/// Requires a token parameter: absent means 400, present means the token
/// is handed on for redemption unchanged.
pub fn confirm_request(token_param: Option<String>) -> (r: ConfirmAction)
    ensures
        token_param is None ==> (r matches ConfirmAction::Respond { status } && status == 400),
        token_param matches Some(t) ==> (r matches ConfirmAction::RedeemToken { token } && token@
            == t@),
{
    match token_param {
        None => ConfirmAction::Respond { status: 400 },
        Some(token) => ConfirmAction::RedeemToken { token },
    }
}

/// Maps the redemption outcome to the response: a token that resolved is
/// 200, an unknown one is 400, the same as a missing parameter.
pub fn confirm_response(found: bool) -> (status: u16)
    ensures
        status == (if found {
            200u16
        } else {
            400u16
        }),
{
    if found {
        200
    } else {
        400
    }
}

/// The confirmation-redemption path, run end to end against the store
/// model: 200 exactly when a token parameter came and resolved, 400
/// otherwise; a resolved token's subscriber is confirmed, anything else
/// leaves the store untouched.
pub fn confirm_with_store(store: &mut StoreModel, token_param: Option<String>) -> (status: u16)
    requires
        old(store).wf(),
    ensures
        final(store).wf(),
        status == 200 || status == 400,
        status == 200 <==> (token_param matches Some(t) && has_token_string(
            old(store).tokens@,
            t@,
        )),
        final(store).tokens@ == old(store).tokens@,
        status == 400 ==> final(store).subscribers@ == old(store).subscribers@,
        status == 200 ==> (token_param matches Some(t) && exists|i: int|
            0 <= i < old(store).tokens@.len() && old(store).tokens@[i].token@ == t@
                && confirm_effect(
                old(store).subscribers@,
                final(store).subscribers@,
                old(store).tokens@[i].subscriber_id,
            )),
{
    match confirm_request(token_param) {
        ConfirmAction::Respond { status } => status,
        ConfirmAction::RedeemToken { token } => {
            let found = store.confirm_subscriber(&token);
            confirm_response(found)
        },
    }
}

/// `post` holds exactly one more subscriber than `pre`: the new row is
/// pending with this email and name, and one new token row — a well-formed
/// token — belongs to it.
pub open spec fn signup_persisted(
    pre: StoreModel,
    post: StoreModel,
    email: Seq<char>,
    name: Seq<char>,
) -> bool {
    &&& pushed_subscriber(
        pre.subscribers@,
        post.subscribers@,
        post.subscribers@.last().id,
        email,
        name,
        SubscriberStatus::PendingConfirmation,
    )
    &&& pushed_token(
        pre.tokens@,
        post.tokens@,
        post.tokens@.last().token@,
        post.subscribers@.last().id,
    )
    &&& valid_token(post.tokens@.last().token@)
}

/// The sign-up path, run end to end against the store model; the email
/// transport's verdict is injected. An invalid form is answered 400 with
/// nothing touched and no email built. A valid one draws an identifier and
/// a token and persists both atomically: a key collision — possible only
/// against rows already durable, so never in an empty store — is answered
/// 500 with the transaction rolled back and no email built; otherwise both
/// rows are durable, the confirmation email for the new token is built,
/// and the attempt is answered 200 exactly when the transport accepted it
/// — a failed send leaves the pending row durable regardless.
pub fn run_signup(
    store: &mut StoreModel,
    form: SubscribeForm,
    base_url: &str,
    email_ok: bool,
) -> (r: (u16, Option<EmailMessage>))
    requires
        old(store).wf(),
    ensures
        final(store).wf(),
        !valid_form(form) ==> r.0 == 400 && r.1 is None && *final(store) == *old(store),
        valid_form(form) ==> {
            ||| (r.0 == 500 && r.1 is None && *final(store) == *old(store) && old(
                store,
            ).subscribers@.len() > 0)
            ||| ({
                &&& signup_persisted(*old(store), *final(store), form.email@, form.name@)
                &&& r.1 matches Some(m) && confirmation_email_for(
                    m,
                    form.email@,
                    base_url@,
                    final(store).tokens@.last().token@,
                )
                &&& r.0 == (if email_ok {
                    200u16
                } else {
                    500u16
                })
            })
        },
        r.0 == 400 <==> !valid_form(form),
{
    let subscriber = match NewSubscriber::try_from(form) {
        Err(_) => {
            return (400, None);
        },
        Ok(s) => s,
    };
    let subscriber_id = generate_subscriber_id();
    let token = generate_subscription_token();
    match store.persist_new_subscriber(subscriber_id, &subscriber, &token) {
        Err(_) => {
            proof {
                // a collision names a durable row: a taken identifier is a
                // subscriber row, and a taken token points at one
                if has_token_string(old(store).tokens@, token@) {
                    let i = choose|i: int|
                        0 <= i < old(store).tokens@.len() && old(store).tokens@[i].token@
                            == token@;
                    assert(crate::store::has_subscriber_id(
                        old(store).subscribers@,
                        old(store).tokens@[i].subscriber_id,
                    ));
                }
            }
            (500, None)
        },
        Ok(_) => {
            let message = build_confirmation_email(
                subscriber.email.as_ref(),
                base_url,
                token.as_str(),
            );
            let status: u16 = if email_ok {
                200
            } else {
                500
            };
            (status, Some(message))
        },
    }
}

} // verus!
