//! The notification dispatcher: what is sent to the e-mail provider, and what
//! its answer means.

use crate::domain::SubscriberEmail;
use secrecy::{ExposeSecret, Secret};
use vstd::prelude::*;

verus! {

/// A credential for the provider. It is kept in a `secrecy::Secret`, which
/// wipes the text when it is dropped and never prints it.
#[verifier::external_body]
#[derive(Debug)]
pub struct Credential {
    secret: Secret<String>,
}

/// The text that a credential holds.
pub uninterp spec fn credential_text(credential: Credential) -> Seq<char>;

/// Makes a credential of `text` with `Secret::new`. Trusted: the credential
/// holds that text.
#[verifier::external_body]
fn seal(text: String) -> (credential: Credential)
    ensures
        credential_text(credential) == text@,
{
    Credential { secret: Secret::new(text) }
}

/// Reads the text of a credential with `ExposeSecret::expose_secret`.
/// Trusted: the text is the one the credential was made of.
#[verifier::external_body]
fn unseal(credential: &Credential) -> (text: &str)
    ensures
        text@ == credential_text(*credential),
{
    credential.secret.expose_secret().as_str()
}

impl Credential {
    /// A credential that holds `text`.
    pub fn new(text: String) -> (credential: Credential)
        ensures
            credential_text(credential) == text@,
    {
        seal(text)
    }

    /// The text of the credential. Whoever reads it answers for where it
    /// goes from there.
    pub fn expose(&self) -> (text: &str)
        ensures
            text@ == credential_text(*self),
    {
        unseal(self)
    }
}

impl Clone for Credential {
    fn clone(&self) -> (r: Self)
        ensures
            credential_text(r) == credential_text(*self),
    {
        seal(String::from_str(unseal(self)))
    }
}

/// An address inside the provider's payload.
#[derive(Clone, Debug, PartialEq, Eq)]
pub struct SendEmailKey {
    pub email: String,
}

/// The recipients of one copy of the message.
#[derive(Clone, Debug, PartialEq, Eq)]
pub struct SendEmailPersonalization {
    pub to: Vec<SendEmailKey>,
}

/// One body of the message with its media type.
#[derive(Clone, Debug, PartialEq, Eq)]
pub struct SendEmailContent {
    pub type_: String,
    pub value: String,
}

/// The payload that the provider expects.
#[derive(Clone, Debug, PartialEq, Eq)]
pub struct SendEmailRequest {
    pub personalization: Vec<SendEmailPersonalization>,
    pub from: SendEmailKey,
    pub subject: String,
    pub content: Vec<SendEmailContent>,
}

/// One request to the provider, ready to be sent as an HTTP `POST`.
#[derive(Debug)]
pub struct OutboundEmail {
    /// The HTTP method.
    pub method: String,
    /// Where to send it.
    pub url: String,
    /// The value of the `Authorization` header.
    pub authorization: Credential,
    /// The value of the `Content-Type` header.
    pub content_type: String,
    /// The body, to be written as JSON.
    pub body: SendEmailRequest,
}

/// Why a message did not go out.
#[derive(Clone, Copy, Debug, PartialEq, Eq, Structural)]
pub enum DispatchError {
    /// The provider could not be reached, or did not answer in time.
    Transport,
    /// The provider answered with this status, which is not a success.
    Rejected(u16),
}

/// The media type of the one body that is sent: HTML where there is an HTML
/// body, plain text otherwise.
pub open spec fn content_type_for(html: Seq<char>) -> Seq<char> {
    if html.len() > 0 {
        "text/html"@
    } else {
        "text/plain"@
    }
}

/// The one body that is sent: the HTML body where there is one, the plain
/// text otherwise.
pub open spec fn content_value_for(html: Seq<char>, text: Seq<char>) -> Seq<char> {
    if html.len() > 0 {
        html
    } else {
        text
    }
}

/// Whether `request` is the payload of one message from `sender` to
/// `recipient` with one body.
pub open spec fn is_payload(
    request: SendEmailRequest,
    sender: Seq<char>,
    recipient: Seq<char>,
    subject: Seq<char>,
    content_type: Seq<char>,
    content_value: Seq<char>,
) -> bool {
    &&& request.personalization@.len() == 1
    &&& request.personalization@[0].to@.len() == 1
    &&& request.personalization@[0].to@[0].email@ == recipient
    &&& request.from.email@ == sender
    &&& request.subject@ == subject
    &&& request.content@.len() == 1
    &&& request.content@[0].type_@ == content_type
    &&& request.content@[0].value@ == content_value
}

/// Whether the provider's status says that it took the message.
pub open spec fn is_success_status(status: u16) -> bool {
    200 <= status <= 299
}

/// What the provider's answer means: `None` stands for no answer at all.
pub open spec fn dispatch_outcome(answer: Option<u16>) -> Result<(), DispatchError> {
    match answer {
        None => Err(DispatchError::Transport),
        Some(status) => if is_success_status(status) {
            Ok(())
        } else {
            Err(DispatchError::Rejected(status))
        },
    }
}

/// Judges the provider's answer: `None` stands for no answer at all. Only a
/// status from 200 to 299 is a success; nothing is tried again.
pub fn outcome_of(answer: Option<u16>) -> (r: Result<(), DispatchError>)
    ensures
        r == dispatch_outcome(answer),
{
    match answer {
        None => Err(DispatchError::Transport),
        Some(status) => if 200 <= status && status <= 299 {
            Ok(())
        } else {
            Err(DispatchError::Rejected(status))
        },
    }
}

/// The sender's side of the provider's API: where it is, who sends, and the
/// credential.
pub struct EmailClient {
    base_url: String,
    sender: SubscriberEmail,
    authorization_token: Credential,
}

impl Clone for EmailClient {
    fn clone(&self) -> (r: Self)
        ensures
            r.base_url() == self.base_url(),
            r.sender() == self.sender(),
            r.credential() == self.credential(),
    {
        EmailClient {
            base_url: self.base_url.clone(),
            sender: self.sender.clone(),
            authorization_token: self.authorization_token.clone(),
        }
    }
}

impl EmailClient {
    /// The provider's base URL.
    pub closed spec fn base_url(&self) -> Seq<char> {
        self.base_url@
    }

    /// The sender's address.
    pub closed spec fn sender(&self) -> Seq<char> {
        self.sender@
    }

    /// The credential.
    pub closed spec fn credential(&self) -> Seq<char> {
        credential_text(self.authorization_token)
    }

    /// A client for the provider at `base_url`, sending as `sender` with the
    /// credential `authorization_token`.
    pub fn new(
        base_url: String,
        sender: SubscriberEmail,
        authorization_token: Credential,
    ) -> (client: EmailClient)
        ensures
            client.base_url() == base_url@,
            client.sender() == sender@,
            client.credential() == credential_text(authorization_token),
    {
        EmailClient { base_url, sender, authorization_token }
    }

    /// The request that sends one message to `recipient`: a `POST` to
    /// `/mail/send` under the base URL, with the credential as bearer token
    /// and one body, the HTML one where it is not empty.
    pub fn request(
        &self,
        recipient: &SubscriberEmail,
        subject: &str,
        html_content: &str,
        text_content: &str,
    ) -> (out: OutboundEmail)
        ensures
            out.method@ == "POST"@,
            out.url@ == self.base_url() + "/mail/send"@,
            credential_text(out.authorization) == "Bearer "@ + self.credential(),
            out.content_type@ == "application/json"@,
            is_payload(
                out.body,
                self.sender(),
                recipient@,
                subject@,
                content_type_for(html_content@),
                content_value_for(html_content@, text_content@),
            ),
    {
        let url = self.base_url.clone().concat("/mail/send");
        let bearer = String::from_str("Bearer ").concat(unseal(&self.authorization_token));
        let authorization = seal(bearer);
        let content = if html_content.is_empty() {
            SendEmailContent {
                type_: String::from_str("text/plain"),
                value: String::from_str(text_content),
            }
        } else {
            SendEmailContent {
                type_: String::from_str("text/html"),
                value: String::from_str(html_content),
            }
        };
        let to = SendEmailKey { email: String::from_str(recipient.as_str()) };
        let from = SendEmailKey { email: String::from_str(self.sender.as_str()) };
        let body = SendEmailRequest {
            personalization: vec![SendEmailPersonalization { to: vec![to] }],
            from,
            subject: String::from_str(subject),
            content: vec![content],
        };
        OutboundEmail {
            method: String::from_str("POST"),
            url,
            authorization,
            content_type: String::from_str("application/json"),
            body,
        }
    }
}

} // verus!
