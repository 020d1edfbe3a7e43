use vstd::prelude::*;
use vstd::string::StringExecFns;

verus! {

/// The provider's request body for one plain-text message to one recipient.
#[derive(Default, Debug, Clone, PartialEq)]
pub struct SendEmailRequest {
    pub personalizations: Vec<Personalization>,
    pub from: From,
    pub subject: String,
    pub content: Vec<Content>,
}

/// The recipients of a message.
#[derive(Default, Debug, Clone, PartialEq)]
pub struct Personalization {
    pub to: Vec<To>,
}

/// One recipient address.
#[derive(Default, Debug, Clone, PartialEq)]
pub struct To {
    pub email: String,
}

/// The sender address.
#[derive(Default, Debug, Clone, PartialEq)]
pub struct From {
    pub email: String,
}

/// One part of the message body, with its media type.
#[derive(Default, Debug, Clone, PartialEq)]
pub struct Content {
    pub type_field: String,
    pub value: String,
}

/// The media type of every body part this client sends.
pub open spec fn plain_text_type() -> Seq<char> {
    "text/plain"@
}

impl SendEmailRequest {
    /// The request has the shape the client always sends: one personalization
    /// with one recipient, and one plain-text content part.
    pub open spec fn is_single_plain(&self) -> bool {
        &&& self.personalizations@.len() == 1
        &&& self.personalizations@[0].to@.len() == 1
        &&& self.content@.len() == 1
        &&& self.content@[0].type_field@ == plain_text_type()
    }

    /// The address of the first recipient.
    pub open spec fn recipient_view(&self) -> Seq<char> {
        self.personalizations@[0].to@[0].email@
    }

    /// The text of the first content part.
    pub open spec fn body_view(&self) -> Seq<char> {
        self.content@[0].value@
    }

    /// The request carries exactly this message.
    pub open spec fn carries(
        &self,
        recipient: Seq<char>,
        sender: Seq<char>,
        subject: Seq<char>,
        body: Seq<char>,
    ) -> bool {
        &&& self.is_single_plain()
        &&& self.recipient_view() == recipient
        &&& self.from.email@ == sender
        &&& self.subject@ == subject
        &&& self.body_view() == body
    }

    /// Builds the request body for one plain-text message from `from` to
    /// `recipient`.
    pub fn new(recipient: &str, from: &str, subject: &str, text_content: &str) -> (r: Self)
        ensures
            r.carries(recipient@, from@, subject@, text_content@),
    {
        let to = To { email: recipient.to_owned() };
        let personalization = Personalization { to: vec![to] };
        let part = Content { type_field: "text/plain".to_owned(), value: text_content.to_owned() };
        SendEmailRequest {
            personalizations: vec![personalization],
            from: From { email: from.to_owned() },
            subject: subject.to_owned(),
            content: vec![part],
        }
    }
}

#[verifier::external_type_specification]
#[verifier::external_body]
pub struct ExHttpClient(reqwest::Client);

#[verifier::external_type_specification]
#[verifier::external_body]
pub struct ExHttpError(reqwest::Error);

/// Relies on reqwest's `ClientBuilder::timeout` and `ClientBuilder::build`:
/// a client whose every request is bounded by `timeout`. Building fails only
/// when the transport cannot be set up, so nothing is promised of the result.
#[verifier::external_body]
fn build_http_client(timeout: std::time::Duration) -> (r: Result<reqwest::Client, reqwest::Error>) {
    reqwest::Client::builder().timeout(timeout).build()
}

/// Why a client could not be made or a message could not be delivered.
#[derive(Clone, Copy, Debug, PartialEq, Eq, Structural)]
pub enum EmailError {
    /// The HTTP transport could not be set up.
    TransportSetup,
    /// The connection failed or was interrupted.
    Transport,
    /// No response came within the client's timeout.
    Timeout,
    /// The provider answered with a status outside 2xx.
    Status(u16),
}

/// What came of one attempt to hand a request to the provider.
#[derive(Clone, Copy, Debug, PartialEq, Eq, Structural)]
pub enum DeliveryOutcome {
    /// The provider answered with this HTTP status.
    Responded(u16),
    /// No response came within the timeout.
    TimedOut,
    /// The connection failed before a response came.
    TransportFailed,
}

/// A 2xx status.
pub open spec fn is_success_status(status: u16) -> bool {
    200 <= status && status <= 299
}

/// The result of a send: success exactly for a 2xx answer, otherwise the
/// failure that names its cause.
pub open spec fn delivery_result(outcome: DeliveryOutcome) -> Result<(), EmailError> {
    match outcome {
        DeliveryOutcome::Responded(status) => if is_success_status(status) {
            Ok(())
        } else {
            Err(EmailError::Status(status))
        },
        DeliveryOutcome::TimedOut => Err(EmailError::Timeout),
        DeliveryOutcome::TransportFailed => Err(EmailError::Transport),
    }
}

/// Decides the result of a send from what came of the attempt.
pub fn classify_delivery(outcome: DeliveryOutcome) -> (r: Result<(), EmailError>)
    ensures
        r == delivery_result(outcome),
{
    match outcome {
        DeliveryOutcome::Responded(status) => if 200 <= status && status <= 299 {
            Ok(())
        } else {
            Err(EmailError::Status(status))
        },
        DeliveryOutcome::TimedOut => Err(EmailError::Timeout),
        DeliveryOutcome::TransportFailed => Err(EmailError::Transport),
    }
}

/// The endpoint that accepts messages, below the provider's base URL. The
/// base URL is taken as it is: no slash is added or removed.
pub open spec fn email_url(base_url: Seq<char>) -> Seq<char> {
    base_url + "/email"@
}

/// One HTTP request to the provider, ready to be sent.
#[derive(Clone)]
pub struct OutboundRequest {
    pub method: String,
    pub url: String,
    pub authorization: String,
    pub content_type: String,
    pub body: SendEmailRequest,
}

impl OutboundRequest {
    /// The request is a JSON `POST` to the email endpoint below `base_url`,
    /// authorized by `authorization`.
    pub open spec fn posts_to(&self, base_url: Seq<char>, authorization: Seq<char>) -> bool {
        &&& self.method@ == "POST"@
        &&& self.url@ == email_url(base_url)
        &&& self.authorization@ == authorization
        &&& self.content_type@ == "application/json"@
    }

    /// Builds the request that delivers one plain-text message from `sender`
    /// to `recipient` through the provider at `base_url`.
    pub fn new(
        base_url: &str,
        sender: &str,
        authorization: String,
        recipient: &str,
        subject: &str,
        text_content: &str,
    ) -> (r: Self)
        ensures
            r.posts_to(base_url@, authorization@),
            r.body.carries(recipient@, sender@, subject@, text_content@),
    {
        let mut url = base_url.to_owned();
        url.append("/email");
        OutboundRequest {
            method: "POST".to_owned(),
            url,
            authorization,
            content_type: "application/json".to_owned(),
            body: SendEmailRequest::new(recipient, sender, subject, text_content),
        }
    }
}

/// A client of the email provider: where it lives, who sends, and the token
/// that authorizes each request. Its configuration does not change after
/// construction. The token is never formatted: the type has no `Debug`.
pub struct EmailClient {
    http_client: reqwest::Client,
    base_url: String,
    sender: String,
    authorization_token: String,
}

impl EmailClient {
    /// The provider's base URL.
    pub closed spec fn base_url_view(&self) -> Seq<char> {
        self.base_url@
    }

    /// The sender address of every message.
    pub closed spec fn sender_view(&self) -> Seq<char> {
        self.sender@
    }

    /// The token sent as the `Authorization` header of every request.
    pub closed spec fn token_view(&self) -> Seq<char> {
        self.authorization_token@
    }

    /// Makes a client whose requests are each bounded by `timeout`. Fails
    /// only where the HTTP transport cannot be set up.
    pub fn new(
        base_url: String,
        sender: String,
        authorization_token: String,
        timeout: std::time::Duration,
    ) -> (r: Result<Self, EmailError>)
        ensures
            match r {
                Ok(client) => {
                    &&& client.base_url_view() == base_url@
                    &&& client.sender_view() == sender@
                    &&& client.token_view() == authorization_token@
                },
                Err(e) => e == EmailError::TransportSetup,
            },
    {
        match build_http_client(timeout) {
            Ok(http_client) => Ok(EmailClient { http_client, base_url, sender, authorization_token }),
            Err(_) => Err(EmailError::TransportSetup),
        }
    }

    /// The provider's base URL.
    pub fn base_url(&self) -> (r: &str)
        ensures
            r@ == self.base_url_view(),
    {
        self.base_url.as_str()
    }

    /// The sender address of every message.
    pub fn sender(&self) -> (r: &str)
        ensures
            r@ == self.sender_view(),
    {
        self.sender.as_str()
    }

    /// The HTTP transport, with this client's timeout.
    pub fn http_client(&self) -> &reqwest::Client {
        &self.http_client
    }

    /// Builds the one request that sends a plain-text message to `recipient`:
    /// a JSON `POST` to the email endpoint below the base URL, from this
    /// client's sender, authorized by its token.
    pub fn email_request(&self, recipient: &str, subject: &str, text_content: &str) -> (r:
        OutboundRequest)
        ensures
            r.posts_to(self.base_url_view(), self.token_view()),
            r.body.carries(recipient@, self.sender_view(), subject@, text_content@),
    {
                OutboundRequest::new(
            self.base_url.as_str(),
            self.sender.as_str(),
            self.authorization_token.clone(),
            recipient,
            subject,
            text_content,
        )
    }
}

} // verus!
