//! The intake of a sign-up: validate it, have it stored, have the
//! confirmation sent, and answer.
//!
//! Storing and sending are done by the caller. `subscribe` decides, one
//! step at a time, what is to be done next and how the intake ends.

use crate::domain::new_subscriber::{NewSubscriber, SubscriberView};
use crate::domain::subscriber_email::{email_is_valid, email_rejection, SubscriberEmail};
use crate::domain::subscriber_name::{name_is_valid, name_rejection, SubscriberName};
use crate::email_client::{
    delivery_result, Delivery, EmailClient, EmailClientView, EmailRequest, EmailRequestView,
    NotifierError,
};
use chrono::Utc;
use uuid::Uuid;
use vstd::prelude::*;
use vstd::string::StringExecFns;

verus! {

/// The two fields of the sign-up form, as they were sent.
#[derive(Debug)]
pub struct SignUp {
    pub email: String,
    pub name: String,
}

/// A sign-up as the contracts see one.
pub struct SignUpView {
    pub email: Seq<char>,
    pub name: Seq<char>,
}

impl View for SignUp {
    type V = SignUpView;

    open spec fn view(&self) -> SignUpView {
        SignUpView { email: self.email@, name: self.name@ }
    }
}

/// What validating a sign-up gives: the subscriber where both fields are
/// valid; otherwise the refusal of the name where the name is invalid, and
/// that of the address where only the address is.
pub open spec fn validated(form: SignUpView) -> Result<SubscriberView, Seq<char>> {
    if !name_is_valid(form.name) {
        Err(name_rejection(form.name))
    } else if !email_is_valid(form.email) {
        Err(email_rejection(form.email))
    } else {
        Ok(SubscriberView { email: form.email, name: form.name })
    }
}

/// What a result of validating holds, as texts.
pub open spec fn subscriber_result(r: Result<NewSubscriber, String>) -> Result<
    SubscriberView,
    Seq<char>,
> {
    match r {
        Ok(subscriber) => Ok(subscriber@),
        Err(message) => Err(message@),
    }
}

/// The conversion is stated by `validated`, over the texts, in the contract
/// of `try_from` itself: a refusal is a new string, which no function of
/// the form alone can name.
impl vstd::std_specs::convert::TryFromSpecImpl<SignUp> for NewSubscriber {
    open spec fn obeys_try_from_spec() -> bool {
        false
    }

    open spec fn try_from_spec(v: SignUp) -> Result<Self, Self::Error> {
        arbitrary()
    }
}

impl TryFrom<SignUp> for NewSubscriber {
    type Error = String;

    /// Validates both fields of a sign-up, the name first.
    fn try_from(value: SignUp) -> (r: Result<Self, Self::Error>)
        ensures
            subscriber_result(r) == validated(value@),
            r is Ok <==> name_is_valid(value.name@) && email_is_valid(value.email@),
    {
        let name = match SubscriberName::parse(value.name) {
            Ok(name) => name,
            Err(message) => return Err(message),
        };
        let email = match SubscriberEmail::parse(value.email) {
            Ok(email) => email,
            Err(message) => return Err(message),
        };
        Ok(NewSubscriber { email, name })
    }
}

/// Where a stored subscription stands.
#[derive(Clone, Copy, Debug, PartialEq, Eq, Structural)]
pub enum SubscriptionStatus {
    Pending,
    Confirmed,
}

/// Why a subscription was not stored.
#[derive(Clone, Copy, Debug, PartialEq, Eq, Structural)]
pub enum RepositoryError {
    /// The address is stored already.
    Conflict,
    /// The store could not be reached, or failed.
    Unavailable,
}

impl RepositoryError {
    /// Why an insert failed: a conflict where the store refused the row
    /// because it holds the address already, which it reports as a
    /// violation of the unique constraint, and unavailability in every
    /// other case.
    pub fn of_failed_insert(unique_violation: bool) -> (error: RepositoryError)
        ensures
            error == (if unique_violation {
                RepositoryError::Conflict
            } else {
                RepositoryError::Unavailable
            }),
    {
        if unique_violation {
            RepositoryError::Conflict
        } else {
            RepositoryError::Unavailable
        }
    }
}

/// The identifiers that are UUIDs of version 4: the version field holds 4
/// and the variant field starts with the bits 1 and 0.
pub open spec fn is_random_uuid(id: u128) -> bool {
    id & 0x0000_0000_0000_f000_c000_0000_0000_0000 == 0x0000_0000_0000_4000_8000_0000_0000_0000
}

/// Draws an identifier with `Uuid::new_v4`. Taken on trust: the version and
/// the variant of what comes back. Every other bit is random.
#[verifier::external_body]
fn fresh_id() -> (id: u128)
    ensures
        is_random_uuid(id),
{
    Uuid::new_v4().as_u128()
}

/// Reads the clock with `Utc::now`: the microseconds since the start of
/// 1970, UTC. Nothing is claimed of the value.
#[verifier::external_body]
fn now_micros() -> i64 {
    Utc::now().timestamp_micros()
}

/// One row of the store.
#[derive(Debug)]
pub struct SubscriptionRecord {
    /// A UUID, as a number.
    pub id: u128,
    pub email: String,
    pub name: String,
    /// Microseconds since the start of 1970, UTC.
    pub subscribed_at: i64,
    pub status: SubscriptionStatus,
}

/// The part of a row that the subscriber determines.
pub struct RecordContent {
    pub email: Seq<char>,
    pub name: Seq<char>,
    pub status: SubscriptionStatus,
}

impl SubscriptionRecord {
    /// The part of this row that the subscriber determines.
    pub open spec fn content(&self) -> RecordContent {
        RecordContent { email: self.email@, name: self.name@, status: self.status }
    }

    /// The row for `subscriber`, with the identifier and the time given.
    pub fn new(id: u128, subscribed_at: i64, subscriber: &NewSubscriber) -> (record: Self)
        ensures
            record.id == id,
            record.subscribed_at == subscribed_at,
            record.content() == content_for(subscriber@),
            email_is_valid(record.email@),
            name_is_valid(record.name@),
    {
        SubscriptionRecord {
            id,
            email: subscriber.email.as_str().to_owned(),
            name: subscriber.name.as_str().to_owned(),
            subscribed_at,
            status: SubscriptionStatus::Confirmed,
        }
    }
}

/// What is stored of a subscriber: the two texts, as confirmed.
pub open spec fn content_for(subscriber: SubscriberView) -> RecordContent {
    RecordContent {
        email: subscriber.email,
        name: subscriber.name,
        status: SubscriptionStatus::Confirmed,
    }
}

/// The row to insert for `new_subscriber`. Its identifier is drawn and its
/// time is read here, at the call: the caller supplies neither. Writing the
/// row is left to the caller.
pub fn insert_subscriber(new_subscriber: &NewSubscriber) -> (record: SubscriptionRecord)
    ensures
        record.content() == content_for(new_subscriber@),
        is_random_uuid(record.id),
        email_is_valid(record.email@),
        name_is_valid(record.name@),
{
    let id: u128 = fresh_id();
    let subscribed_at: i64 = now_micros();
    SubscriptionRecord::new(id, subscribed_at, new_subscriber)
}

/// Where the confirmation message sends its reader.
pub open spec fn confirmation_link() -> Seq<char> {
    "https://no-domain.com/subscriptions/confirm"@
}

/// The subject of the confirmation message.
pub open spec fn confirmation_subject() -> Seq<char> {
    "Welcome!"@
}

/// The confirmation message as HTML, around `link`.
pub open spec fn confirmation_html(link: Seq<char>) -> Seq<char> {
    "Welcome to our newsletter!<br />Click <a href=\""@ + link
        + "\">here</a> to confirm your subscription."@
}

/// The confirmation message as plain text, around `link`.
pub open spec fn confirmation_text(link: Seq<char>) -> Seq<char> {
    "Welcome to our newsletter!\nVisit "@ + link + " to confirm your subscription."@
}

/// The request by which `client` sends the confirmation message to
/// `recipient`.
pub open spec fn confirmation_request(
    client: EmailClientView,
    recipient: Seq<char>,
) -> EmailRequestView {
    client.request(
        recipient,
        confirmation_subject(),
        confirmation_html(confirmation_link()),
        confirmation_text(confirmation_link()),
    )
}

/// The request that sends the confirmation message to `new_subscriber`:
/// both bodies around the same link. Posting it is left to the caller.
pub fn send_confirmation_email(email_client: &EmailClient, new_subscriber: NewSubscriber) -> (request:
    EmailRequest)
    ensures
        request@ == confirmation_request(email_client@, new_subscriber.email@),
{
    let confirmation_link = "https://no-domain.com/subscriptions/confirm";
    let mut html_body = String::from_str("Welcome to our newsletter!<br />Click <a href=\"");
    html_body.append(confirmation_link);
    html_body.append("\">here</a> to confirm your subscription.");
    let mut plain_body = String::from_str("Welcome to our newsletter!\nVisit ");
    plain_body.append(confirmation_link);
    plain_body.append(" to confirm your subscription.");
    email_client.send_email(
        new_subscriber.email,
        "Welcome!",
        html_body.as_str(),
        plain_body.as_str(),
    )
}

/// How an intake ended.
#[derive(Debug)]
pub enum SubscriptionOutcome {
    /// The subscriber is stored and the confirmation is sent.
    Accepted,
    /// The sign-up was invalid, for the reason given. Nothing was stored
    /// and nothing was sent.
    Rejected(String),
    /// The subscriber could not be stored. Nothing was sent.
    StorageFailed(RepositoryError),
    /// The subscriber is stored, but the confirmation could not be sent.
    NotificationFailed(NotifierError),
}

/// An outcome as the contracts see one.
pub enum OutcomeView {
    Accepted,
    Rejected(Seq<char>),
    StorageFailed(RepositoryError),
    NotificationFailed(NotifierError),
}

impl View for SubscriptionOutcome {
    type V = OutcomeView;

    open spec fn view(&self) -> OutcomeView {
        match self {
            SubscriptionOutcome::Accepted => OutcomeView::Accepted,
            SubscriptionOutcome::Rejected(reason) => OutcomeView::Rejected(reason@),
            SubscriptionOutcome::StorageFailed(error) => OutcomeView::StorageFailed(*error),
            SubscriptionOutcome::NotificationFailed(error) => OutcomeView::NotificationFailed(
                *error,
            ),
        }
    }
}

impl OutcomeView {
    /// The status that answers a request with this outcome.
    pub open spec fn status_code(self) -> u16 {
        match self {
            OutcomeView::Accepted => 200,
            OutcomeView::Rejected(_) => 400,
            OutcomeView::StorageFailed(_) => 500,
            OutcomeView::NotificationFailed(_) => 500,
        }
    }

    /// The text that answers a request with this outcome.
    pub open spec fn body(self) -> Seq<char> {
        match self {
            OutcomeView::Accepted => "subscription successful"@,
            OutcomeView::Rejected(_) => "error parsing subscriber"@,
            OutcomeView::StorageFailed(_) => "Failed to execute query."@,
            OutcomeView::NotificationFailed(_) => "Failed to execute query."@,
        }
    }

    /// The answer to a request with this outcome.
    pub open spec fn response(self) -> ResponseView {
        ResponseView { status: self.status_code(), body: self.body() }
    }
}

/// The answer to a request: a status and a short text.
#[derive(Clone, Copy, Debug)]
pub struct Response {
    pub status: u16,
    pub body: &'static str,
}

/// An answer as the contracts see one.
pub struct ResponseView {
    pub status: u16,
    pub body: Seq<char>,
}

impl View for Response {
    type V = ResponseView;

    open spec fn view(&self) -> ResponseView {
        ResponseView { status: self.status, body: self.body@ }
    }
}

impl SubscriptionOutcome {
    /// The status that answers a request with this outcome: 200 when it
    /// was accepted, 400 when the sign-up was invalid, 500 when storing or
    /// sending failed.
    pub fn status_code(&self) -> (status: u16)
        ensures
            status == self@.status_code(),
    {
        match self {
            SubscriptionOutcome::Accepted => 200,
            SubscriptionOutcome::Rejected(_) => 400,
            SubscriptionOutcome::StorageFailed(_) => 500,
            SubscriptionOutcome::NotificationFailed(_) => 500,
        }
    }

    /// The text that answers a request with this outcome.
    pub fn body(&self) -> (body: &'static str)
        ensures
            body@ == self@.body(),
    {
        match self {
            SubscriptionOutcome::Accepted => "subscription successful",
            SubscriptionOutcome::Rejected(_) => "error parsing subscriber",
            SubscriptionOutcome::StorageFailed(_) => "Failed to execute query.",
            SubscriptionOutcome::NotificationFailed(_) => "Failed to execute query.",
        }
    }

    /// The answer to a request with this outcome.
    pub fn response(&self) -> (response: Response)
        ensures
            response@ == self@.response(),
    {
        Response { status: self.status_code(), body: self.body() }
    }
}

/// How far an intake has come.
#[derive(Debug)]
pub enum Intake {
    /// Nothing has been looked at yet.
    Received,
    /// The sign-up was valid and the row is being stored.
    Validated(NewSubscriber),
    /// The row is stored and the confirmation is being sent.
    Stored,
    /// The intake is over.
    Finished(SubscriptionOutcome),
}

/// A state of the intake as the contracts see one.
pub enum IntakeView {
    Received,
    Validated(SubscriberView),
    Stored,
    Finished(OutcomeView),
}

impl View for Intake {
    type V = IntakeView;

    open spec fn view(&self) -> IntakeView {
        match self {
            Intake::Received => IntakeView::Received,
            Intake::Validated(subscriber) => IntakeView::Validated(subscriber@),
            Intake::Stored => IntakeView::Stored,
            Intake::Finished(outcome) => IntakeView::Finished(outcome@),
        }
    }
}

/// What the caller reports to the intake.
#[derive(Debug)]
pub enum IntakeEvent {
    /// The form arrived.
    Submitted(SignUp),
    /// The store was asked to insert the row, with this result.
    InsertFinished(Result<(), RepositoryError>),
    /// The request was posted to the sending service, and this became of it.
    SendFinished(Delivery),
}

/// An event as the contracts see one.
pub enum EventView {
    Submitted(SignUpView),
    InsertFinished(Result<(), RepositoryError>),
    SendFinished(Delivery),
}

impl View for IntakeEvent {
    type V = EventView;

    open spec fn view(&self) -> EventView {
        match self {
            IntakeEvent::Submitted(form) => EventView::Submitted(form@),
            IntakeEvent::InsertFinished(result) => EventView::InsertFinished(*result),
            IntakeEvent::SendFinished(delivery) => EventView::SendFinished(*delivery),
        }
    }
}

/// What the intake asks of the caller.
#[derive(Debug)]
pub enum IntakeAction {
    /// Insert this row, and report the result.
    Insert(SubscriptionRecord),
    /// Post this request, and report what became of it.
    Send(EmailRequest),
    /// Answer the client. The intake is over.
    Respond(Response),
}

/// An action as the contracts see one. Of a row to insert it holds the part
/// that the subscriber determines.
pub enum ActionView {
    Insert(RecordContent),
    Send(EmailRequestView),
    Respond(ResponseView),
}

impl View for IntakeAction {
    type V = ActionView;

    open spec fn view(&self) -> ActionView {
        match self {
            IntakeAction::Insert(record) => ActionView::Insert(record.content()),
            IntakeAction::Send(request) => ActionView::Send(request@),
            IntakeAction::Respond(response) => ActionView::Respond(response@),
        }
    }
}

/// The view of an action that may be missing.
pub open spec fn action_view(action: Option<IntakeAction>) -> Option<ActionView> {
    match action {
        Some(action) => Some(action@),
        None => None,
    }
}

/// The intake ends with `outcome`: the state that holds it, and the answer
/// to give.
pub open spec fn finished(outcome: OutcomeView) -> (IntakeView, Option<ActionView>) {
    (IntakeView::Finished(outcome), Some(ActionView::Respond(outcome.response())))
}

/// One step of the intake: the state that follows `state` on `event`, and
/// what the caller is to do next.
///
/// A sign-up is validated when it arrives: an invalid one ends the intake,
/// a valid one is to be inserted. The confirmation is to be sent once the
/// insert has succeeded, and only then. A failed insert and a failed
/// delivery each end the intake; after a failed delivery the row stays
/// stored. An event that the state does not wait for changes nothing and
/// asks for nothing.
pub open spec fn next(client: EmailClientView, state: IntakeView, event: EventView) -> (
    IntakeView,
    Option<ActionView>,
) {
    match (state, event) {
        (IntakeView::Received, EventView::Submitted(form)) => match validated(form) {
            Ok(subscriber) => (
                IntakeView::Validated(subscriber),
                Some(ActionView::Insert(content_for(subscriber))),
            ),
            Err(reason) => finished(OutcomeView::Rejected(reason)),
        },
        (IntakeView::Validated(subscriber), EventView::InsertFinished(result)) => match result {
            Ok(_) => (
                IntakeView::Stored,
                Some(ActionView::Send(confirmation_request(client, subscriber.email))),
            ),
            Err(error) => finished(OutcomeView::StorageFailed(error)),
        },
        (IntakeView::Stored, EventView::SendFinished(delivery)) => match delivery_result(
            delivery,
        ) {
            Ok(_) => finished(OutcomeView::Accepted),
            Err(error) => finished(OutcomeView::NotificationFailed(error)),
        },
        _ => (state, None),
    }
}

/// Ends the intake with `outcome`.
fn finish(outcome: SubscriptionOutcome) -> (r: (Intake, Option<IntakeAction>))
    ensures
        (r.0@, action_view(r.1)) == finished(outcome@),
{
    let response = outcome.response();
    (Intake::Finished(outcome), Some(IntakeAction::Respond(response)))
}

/// Takes the intake one step further: from `state`, on `event`, to the
/// state that follows, with what the caller is to do next. The caller
/// starts with `Intake::Received` and the form, does what is asked, reports
/// what came of it, and stops when it is asked to respond.
pub fn subscribe(email_client: &EmailClient, state: Intake, event: IntakeEvent) -> (r: (
    Intake,
    Option<IntakeAction>,
))
    ensures
        (r.0@, action_view(r.1)) == next(email_client@, state@, event@),
        r.1 matches Some(IntakeAction::Insert(record)) ==> is_random_uuid(record.id),
{
    match (state, event) {
        (Intake::Received, IntakeEvent::Submitted(sign_up)) => {
            match NewSubscriber::try_from(sign_up) {
                Ok(new_subscriber) => {
                    let record = insert_subscriber(&new_subscriber);
                    (Intake::Validated(new_subscriber), Some(IntakeAction::Insert(record)))
                },
                Err(reason) => finish(SubscriptionOutcome::Rejected(reason)),
            }
        },
        (Intake::Validated(new_subscriber), IntakeEvent::InsertFinished(result)) => {
            match result {
                Ok(_) => {
                    let request = send_confirmation_email(email_client, new_subscriber);
                    (Intake::Stored, Some(IntakeAction::Send(request)))
                },
                Err(error) => finish(SubscriptionOutcome::StorageFailed(error)),
            }
        },
        (Intake::Stored, IntakeEvent::SendFinished(delivery)) => {
            match EmailClient::outcome(delivery) {
                Ok(_) => finish(SubscriptionOutcome::Accepted),
                Err(error) => finish(SubscriptionOutcome::NotificationFailed(error)),
            }
        },
        (state, _) => (state, None),
    }
}

/// How an intake ends, given the form, what the store answers to the
/// insert and what becomes of the confirmation: a sign-up that is invalid
/// is rejected; a valid one fails with the store's error; a stored one
/// fails with the notifier's error; and all else is accepted.
pub open spec fn outcome_of(
    form: SignUpView,
    insert: Result<(), RepositoryError>,
    delivery: Delivery,
) -> OutcomeView {
    match validated(form) {
        Err(reason) => OutcomeView::Rejected(reason),
        Ok(_) => match insert {
            Err(error) => OutcomeView::StorageFailed(error),
            Ok(_) => match delivery_result(delivery) {
                Err(error) => OutcomeView::NotificationFailed(error),
                Ok(_) => OutcomeView::Accepted,
            },
        },
    }
}

/// The steps of an intake lead to the outcome that `outcome_of` names, and
/// the answer asked for at the end is the one that belongs to it. An
/// invalid sign-up ends at the first step, a failed insert at the second,
/// and all else at the third.
pub proof fn lemma_intake_reaches_outcome(
    client: EmailClientView,
    form: SignUpView,
    insert: Result<(), RepositoryError>,
    delivery: Delivery,
)
    ensures
        ({
            let outcome = outcome_of(form, insert, delivery);
            let first = next(client, IntakeView::Received, EventView::Submitted(form));
            let second = next(client, first.0, EventView::InsertFinished(insert));
            let third = next(client, second.0, EventView::SendFinished(delivery));
            if validated(form) is Err {
                first == finished(outcome)
            } else if insert is Err {
                second == finished(outcome)
            } else {
                third == finished(outcome)
            }
        }),
{
}

/// Each outcome has one status: 200 for an accepted sign-up and for nothing
/// else, 400 for a rejected one and for nothing else, 500 for a failure to
/// store or to notify and for nothing else.
pub proof fn lemma_status_tells_outcome(outcome: OutcomeView)
    ensures
        outcome.status_code() == 200 <==> outcome is Accepted,
        outcome.status_code() == 400 <==> outcome is Rejected,
        outcome.status_code() == 500 <==> outcome is StorageFailed || outcome is NotificationFailed,
        outcome.status_code() == 200 || outcome.status_code() == 400 || outcome.status_code()
            == 500,
{
}

/// A sign-up is rejected exactly when its name or its address is invalid,
/// and then nothing is to be stored or sent: the only thing asked for is
/// the answer, with status 400.
pub proof fn lemma_invalid_sign_up_is_rejected(client: EmailClientView, form: SignUpView)
    ensures
        ({
            let first = next(client, IntakeView::Received, EventView::Submitted(form));
            &&& first.0 is Finished <==> !(name_is_valid(form.name) && email_is_valid(form.email))
            &&& first.0 matches IntakeView::Finished(outcome) ==> {
                &&& outcome is Rejected
                &&& first.1 == Some(ActionView::Respond(outcome.response()))
                &&& outcome.status_code() == 400
            }
        }),
{
}

/// A row is asked to be inserted only for a sign-up that has just been
/// found valid, and it holds that sign-up's two texts, as confirmed.
pub proof fn lemma_insert_follows_validation(
    client: EmailClientView,
    state: IntakeView,
    event: EventView,
)
    requires
        next(client, state, event).1 matches Some(ActionView::Insert(_)),
    ensures
        state is Received,
        event matches EventView::Submitted(form) && name_is_valid(form.name) && email_is_valid(
            form.email,
        ) && next(client, state, event).1 == Some(
            ActionView::Insert(
                RecordContent {
                    email: form.email,
                    name: form.name,
                    status: SubscriptionStatus::Confirmed,
                },
            ),
        ),
{
}

/// The confirmation is asked to be sent only when the insert has just
/// succeeded, and it goes to the address that was stored.
pub proof fn lemma_confirmation_follows_storage(
    client: EmailClientView,
    state: IntakeView,
    event: EventView,
)
    requires
        next(client, state, event).1 matches Some(ActionView::Send(_)),
    ensures
        event matches EventView::InsertFinished(result) && result is Ok,
        state matches IntakeView::Validated(subscriber) && next(client, state, event).1 == Some(
            ActionView::Send(confirmation_request(client, subscriber.email)),
        ),
{
}

/// A failed insert, a conflict among them, ends the intake with the store's
/// error and status 500; no confirmation is asked for, then or later.
pub proof fn lemma_failed_insert_sends_nothing(
    client: EmailClientView,
    subscriber: SubscriberView,
    error: RepositoryError,
    later: EventView,
)
    ensures
        ({
            let step = next(
                client,
                IntakeView::Validated(subscriber),
                EventView::InsertFinished(Err(error)),
            );
            &&& step == finished(OutcomeView::StorageFailed(error))
            &&& OutcomeView::StorageFailed(error).status_code() == 500
            &&& next(client, step.0, later) == (step.0, None::<ActionView>)
        }),
{
}

/// When the confirmation cannot be delivered to a valid sign-up whose row
/// was stored, the intake ends with the notifier's error and status 500.
/// The row was asked to be inserted before, and no step asks to take it
/// back: it stays stored.
pub proof fn lemma_failed_delivery_keeps_row(
    client: EmailClientView,
    form: SignUpView,
    delivery: Delivery,
)
    requires
        name_is_valid(form.name),
        email_is_valid(form.email),
        delivery_result(delivery) is Err,
    ensures
        ({
            let first = next(client, IntakeView::Received, EventView::Submitted(form));
            let second = next(client, first.0, EventView::InsertFinished(Ok(())));
            let third = next(client, second.0, EventView::SendFinished(delivery));
            &&& first.1 == Some(
                ActionView::Insert(
                    RecordContent {
                        email: form.email,
                        name: form.name,
                        status: SubscriptionStatus::Confirmed,
                    },
                ),
            )
            &&& second.1 is Some && second.1->0 is Send
            &&& third.0 matches IntakeView::Finished(outcome) && outcome
                == OutcomeView::NotificationFailed(delivery_result(delivery)->Err_0)
                && outcome.status_code() == 500 && third.1 == Some(
                ActionView::Respond(outcome.response()),
            )
        }),
{
}

/// An intake that is over stays as it is, whatever is reported to it, and
/// asks for nothing more. An answer is asked for exactly at the step that
/// ends an intake, and it is the answer that belongs to the outcome.
pub proof fn lemma_finished_is_final(client: EmailClientView, state: IntakeView, event: EventView)
    ensures
        state is Finished ==> next(client, state, event) == (state, None::<ActionView>),
        !(state is Finished) ==> (next(client, state, event).0 is Finished <==> next(
            client,
            state,
            event,
        ).1 matches Some(ActionView::Respond(_))),
        !(state is Finished) && next(client, state, event).0 is Finished ==> next(
            client,
            state,
            event,
        ) == finished(next(client, state, event).0->Finished_0),
{
}

/// How far a state is on the way from a form to an answer.
pub open spec fn progress(state: IntakeView) -> nat {
    match state {
        IntakeView::Received => 0,
        IntakeView::Validated(_) => 1,
        IntakeView::Stored => 2,
        IntakeView::Finished(_) => 3,
    }
}

/// An intake is a single pass: no step leads back, and every step that
/// asks for something leads on. The insert is asked for on leaving the
/// first state and the confirmation on leaving the second, so each is asked
/// for at most once, and one intake asks for at most three things.
pub proof fn lemma_intake_only_advances(
    client: EmailClientView,
    state: IntakeView,
    event: EventView,
)
    ensures
        progress(state) <= progress(next(client, state, event).0) <= 3,
        next(client, state, event).1 is Some <==> progress(state) < progress(
            next(client, state, event).0,
        ),
        next(client, state, event).1 is None ==> next(client, state, event).0 == state,
        next(client, state, event).1 matches Some(ActionView::Insert(_)) ==> progress(state) == 0
            && progress(next(client, state, event).0) == 1,
        next(client, state, event).1 matches Some(ActionView::Send(_)) ==> progress(state) == 1
            && progress(next(client, state, event).0) == 2,
        next(client, state, event).1 matches Some(ActionView::Respond(_)) ==> progress(
            next(client, state, event).0,
        ) == 3,
{
}

} // verus!
