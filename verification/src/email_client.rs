//! The client of the service that sends email: what it asks of the service,
//! and what it makes of the answer.

use crate::domain::subscriber_email::{email_is_valid, SubscriberEmail};
use vstd::prelude::*;

verus! {

/// The URL that `reference` names when it is resolved against the URL
/// `base`, as text; `None` where `base` is no URL or the two do not join.
pub uninterp spec fn joined_url(base: Seq<char>, reference: Seq<char>) -> Option<Seq<char>>;

/// Resolves `reference` against `base`: `Url::parse` reads `base`,
/// `Url::join` resolves `reference` against what was read, and the URL that
/// comes of it is handed back as text. `None` where either call fails. The
/// result is taken on trust: it is a function of the two texts alone, and
/// nothing more is claimed of it.
#[verifier::external_body]
fn join_url(base: &str, reference: &str) -> (r: Option<String>)
    ensures
        match r {
            Some(url) => joined_url(base@, reference@) == Some(url@),
            None => joined_url(base@, reference@) is None,
        },
{
    reqwest::Url::parse(base).ok()?.join(reference).ok().map(String::from)
}

/// The path of the sending service under its base URL.
pub open spec fn email_path() -> Seq<char> {
    "/email"@
}

/// Why a message was not sent.
#[derive(Clone, Copy, Debug, PartialEq, Eq, Structural)]
pub enum NotifierError {
    /// The service could not be reached, or did not answer in time.
    Transport,
    /// The service answered with a status that is no success.
    Rejected,
}

/// What became of one request to the service.
#[derive(Clone, Copy, Debug, PartialEq, Eq, Structural)]
pub enum Delivery {
    /// The service answered with this status.
    Answered(u16),
    /// No answer came within the time allowed.
    TimedOut,
    /// The request did not get through.
    Failed,
}

/// The statuses that stand for success.
pub open spec fn is_success(status: u16) -> bool {
    200 <= status <= 299
}

/// What a delivery means to the one who asked for it.
pub open spec fn delivery_result(delivery: Delivery) -> Result<(), NotifierError> {
    match delivery {
        Delivery::Answered(status) => if is_success(status) {
            Ok(())
        } else {
            Err(NotifierError::Rejected)
        },
        Delivery::TimedOut => Err(NotifierError::Transport),
        Delivery::Failed => Err(NotifierError::Transport),
    }
}

/// One request to the service, ready to be posted.
#[derive(Debug)]
pub struct EmailRequest {
    /// Where to post it.
    pub url: String,
    /// The sender's address.
    pub from: String,
    /// The recipient's address.
    pub to: String,
    pub subject: String,
    pub html_body: String,
    pub text_body: String,
    /// How long to wait for the answer, in milliseconds.
    pub timeout_millis: u64,
}

/// A request as the contracts see one.
pub struct EmailRequestView {
    pub url: Seq<char>,
    pub from: Seq<char>,
    pub to: Seq<char>,
    pub subject: Seq<char>,
    pub html_body: Seq<char>,
    pub text_body: Seq<char>,
    pub timeout_millis: u64,
}

impl View for EmailRequest {
    type V = EmailRequestView;

    open spec fn view(&self) -> EmailRequestView {
        EmailRequestView {
            url: self.url@,
            from: self.from@,
            to: self.to@,
            subject: self.subject@,
            html_body: self.html_body@,
            text_body: self.text_body@,
            timeout_millis: self.timeout_millis,
        }
    }
}

/// A client as the contracts see one.
pub struct EmailClientView {
    pub sender: Seq<char>,
    pub base_url: Seq<char>,
    pub timeout_millis: u64,
}

impl EmailClientView {
    /// Where this client posts its requests.
    pub open spec fn endpoint(self) -> Seq<char> {
        joined_url(self.base_url, email_path())->0
    }

    /// The request by which this client sends one message.
    pub open spec fn request(
        self,
        recipient: Seq<char>,
        subject: Seq<char>,
        html_content: Seq<char>,
        text_content: Seq<char>,
    ) -> EmailRequestView {
        EmailRequestView {
            url: self.endpoint(),
            from: self.sender,
            to: recipient,
            subject,
            html_body: html_content,
            text_body: text_content,
            timeout_millis: self.timeout_millis,
        }
    }
}

/// The client of the sending service: who sends, where to, and how long to
/// wait for an answer.
#[derive(Debug)]
pub struct EmailClient {
    sender: SubscriberEmail,
    base_url: String,
    endpoint: String,
    timeout_millis: u64,
}

impl View for EmailClient {
    type V = EmailClientView;

    closed spec fn view(&self) -> EmailClientView {
        EmailClientView {
            sender: self.sender@,
            base_url: self.base_url@,
            timeout_millis: self.timeout_millis,
        }
    }
}

impl EmailClient {
    #[verifier::type_invariant]
    spec fn valid(&self) -> bool {
        joined_url(self.base_url@, email_path()) == Some(self.endpoint@)
    }

    /// A client that sends in the name of `sender` through the service at
    /// `base_url`, if that text is a URL under which the service's path can
    /// be resolved.
    pub fn new(base_url: String, sender: SubscriberEmail, timeout_millis: u64) -> (r: Option<
        EmailClient,
    >)
        ensures
            r is Some <==> joined_url(base_url@, email_path()) is Some,
            r matches Some(client) ==> client@ == (EmailClientView {
                sender: sender@,
                base_url: base_url@,
                timeout_millis,
            }),
    {
        match join_url(base_url.as_str(), "/email") {
            Some(endpoint) => Some(EmailClient { sender, base_url, endpoint, timeout_millis }),
            None => None,
        }
    }

    /// The request that sends one message to `recipient`: it goes to the
    /// service's path under the base URL and carries the sender, the
    /// recipient, the subject and both bodies, with the time to wait for an
    /// answer. Both addresses in it are valid. Posting it is left to the
    /// caller, and so is trying again.
    pub fn send_email(
        &self,
        recipient: SubscriberEmail,
        subject: &str,
        html_content: &str,
        text_content: &str,
    ) -> (request: EmailRequest)
        ensures
            request@ == self@.request(recipient@, subject@, html_content@, text_content@),
            email_is_valid(request.from@),
            email_is_valid(request.to@),
    {
        proof {
            use_type_invariant(self);
        }
        EmailRequest {
            url: self.endpoint.clone(),
            from: self.sender.as_str().to_owned(),
            to: recipient.as_str().to_owned(),
            subject: subject.to_owned(),
            html_body: html_content.to_owned(),
            text_body: text_content.to_owned(),
            timeout_millis: self.timeout_millis,
        }
    }

    /// Reads the outcome of a request: success for a status from 200 to
    /// 299, and an error for everything else.
    pub fn outcome(delivery: Delivery) -> (r: Result<(), NotifierError>)
        ensures
            r == delivery_result(delivery),
            r is Ok <==> (delivery matches Delivery::Answered(status) && is_success(status)),
            r == Err::<(), NotifierError>(NotifierError::Rejected) <==> (delivery matches
                Delivery::Answered(status) && !is_success(status)),
            r == Err::<(), NotifierError>(NotifierError::Transport) <==> (delivery is TimedOut
                || delivery is Failed),
    {
        match delivery {
            Delivery::Answered(status) => if 200 <= status && status <= 299 {
                Ok(())
            } else {
                Err(NotifierError::Rejected)
            },
            Delivery::TimedOut => Err(NotifierError::Transport),
            Delivery::Failed => Err(NotifierError::Transport),
        }
    }
}

} // verus!
