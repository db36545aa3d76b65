//! The confirmation workflow: a submission becomes a subscriber awaiting
//! confirmation and a message with a link; the link's token confirms the
//! subscriber.
//!
//! Storage and dispatch may live outside this process. The workflow is
//! therefore given twice: step by step, each step taking the outcome of the
//! work before it, and whole, over the in-memory store.

use crate::domain::{
    email_is_well_formed, reason_text, submission_fault, validate, NewSubscriber, SubscriberEmail,
    ValidationError,
};
use crate::email_client::{
    credential_text, is_payload, DispatchError, EmailClient, OutboundEmail,
};
use crate::store::{StoreError, StoreView, SubscriberId, SubscriberStatus, SubscriptionStore};
use crate::text::is_blank;
use crate::token::{token_is_well_formed, Token};
use vstd::prelude::*;

verus! {

/// Why a submission failed.
#[derive(Clone, Copy, Debug, PartialEq, Eq, Structural)]
pub enum SubmitError {
    /// The name or the address was turned down; nothing was written or sent.
    InvalidInput(ValidationError),
    /// The subscriber could not be written; nothing was sent.
    Storage(StoreError),
    /// The subscriber was written, but the message did not go out.
    Dispatch(DispatchError),
}

/// Why a confirmation failed.
#[derive(Clone, Copy, Debug, PartialEq, Eq, Structural)]
pub enum ConfirmError {
    /// No token was given, or an empty one.
    MissingToken,
    /// The token was never issued.
    Unauthorized,
    /// The store failed.
    Storage,
}

/// The link that confirms the subscriber who holds `token`.
pub open spec fn confirmation_link_text(base_url: Seq<char>, token: Seq<char>) -> Seq<char> {
    base_url + "/subscriptions/confirm?subscription_token="@ + token
}

/// The subject of the confirmation message.
pub open spec fn confirmation_subject() -> Seq<char> {
    "Welcome!"@
}

/// The HTML body of the confirmation message for `link`.
pub open spec fn confirmation_html(link: Seq<char>) -> Seq<char> {
    "Welcome to our newsletter!<br />Click <a href=\""@ + link
        + "\">here</a> to confirm your subscription."@
}

/// Whether `out` is the confirmation message that `client` sends to
/// `recipient` for `link`.
pub open spec fn is_confirmation_email(
    out: OutboundEmail,
    client: EmailClient,
    recipient: Seq<char>,
    link: Seq<char>,
) -> bool {
    &&& out.method@ == "POST"@
    &&& out.url@ == client.base_url() + "/mail/send"@
    &&& credential_text(out.authorization) == "Bearer "@ + client.credential()
    &&& out.content_type@ == "application/json"@
    &&& is_payload(
        out.body,
        client.sender(),
        recipient,
        confirmation_subject(),
        "text/html"@,
        confirmation_html(link),
    )
}

/// Builds the confirmation link for `token` under the service's own
/// `base_url`.
pub fn confirmation_link(base_url: &str, token: &Token) -> (link: String)
    ensures
        link@ == confirmation_link_text(base_url@, token@),
{
    String::from_str(base_url).concat("/subscriptions/confirm?subscription_token=").concat(
        token.as_str(),
    )
}

/// Builds the confirmation message for `link`, to be sent to `recipient`. A
/// plain body is handed to the client beside the HTML one; the client sends
/// the HTML one.
pub fn confirmation_email(client: &EmailClient, recipient: &SubscriberEmail, link: &str) -> (out:
    OutboundEmail)
    ensures
        is_confirmation_email(out, *client, recipient@, link@),
{
    let html = String::from_str("Welcome to our newsletter!<br />Click <a href=\"").concat(
        link,
    ).concat("\">here</a> to confirm your subscription.");
    let plain = String::from_str("Welcome to our newsletter!\nVisit ").concat(link).concat(
        " to confirm your subscription.",
    );
    proof {
        reveal_strlit("Welcome to our newsletter!<br />Click <a href=\"");
        assert(html@.len() > 0);
    }
    client.request(recipient, "Welcome!", html.as_str(), plain.as_str())
}

/// A submission that passed validation, with the token drawn for it.
#[derive(Debug)]
pub struct Submission {
    pub subscriber: NewSubscriber,
    pub token: Token,
}

/// What a submission left behind: the subscriber written, its token, and the
/// message that is now to be sent.
#[derive(Debug)]
pub struct Receipt {
    pub subscriber_id: SubscriberId,
    pub token: Token,
    pub email: OutboundEmail,
}

/// How a submission ends, given how each of its steps ended. A step is only
/// reached where the ones before it succeeded.
pub open spec fn submit_outcome(
    fault: Option<ValidationError>,
    stored: Result<(), StoreError>,
    dispatched: Result<(), DispatchError>,
) -> Result<(), SubmitError> {
    match fault {
        Some(e) => Err(SubmitError::InvalidInput(e)),
        None => match stored {
            Err(e) => Err(SubmitError::Storage(e)),
            Ok(()) => match dispatched {
                Err(e) => Err(SubmitError::Dispatch(e)),
                Ok(()) => Ok(()),
            },
        },
    }
}

/// What the store's answer to a redeemed token means for the confirmation:
/// an unknown token is `Unauthorized`, any other failure is `Storage`.
pub open spec fn redeem_outcome(stored: Result<(), StoreError>) -> Result<(), ConfirmError> {
    match stored {
        Ok(()) => Ok(()),
        Err(StoreError::TokenNotFound) => Err(ConfirmError::Unauthorized),
        Err(StoreError::Internal) => Err(ConfirmError::Storage),
    }
}

/// How a confirmation ends, given the token handed in and what the store
/// said of it. The store is only asked where a token was given.
pub open spec fn confirm_outcome(
    token: Option<Seq<char>>,
    stored: Result<(), StoreError>,
) -> Result<(), ConfirmError> {
    match token {
        None => Err(ConfirmError::MissingToken),
        Some(t) => if t.len() == 0 {
            Err(ConfirmError::MissingToken)
        } else {
            redeem_outcome(stored)
        },
    }
}

/// The first step of a submission: validates the name and the address and,
/// where both pass, draws a token. Nothing is written or sent.
pub fn begin_submit(name: &str, email: &str) -> (r: Result<Submission, SubmitError>)
    ensures
        match r {
            Ok(submission) => {
                &&& submission_fault(name@, email@) is None
                &&& submission.subscriber.name@ == name@
                &&& submission.subscriber.email@ == email@
                &&& token_is_well_formed(submission.token@)
            },
            Err(e) => submission_fault(name@, email@) matches Some(fault) && e
                == SubmitError::InvalidInput(fault),
        },
{
    match validate(name, email) {
        Err(fault) => Err(SubmitError::InvalidInput(fault)),
        Ok(subscriber) => Ok(Submission { subscriber, token: Token::generate() }),
    }
}

/// The step after the write: where the subscriber and the token were
/// written, the confirmation message to send; where they were not, the
/// failure, and nothing is to be sent.
pub fn after_store(
    client: &EmailClient,
    base_url: &str,
    submission: &Submission,
    stored: Result<(), StoreError>,
) -> (r: Result<OutboundEmail, SubmitError>)
    ensures
        match stored {
            Err(e) => r matches Err(f) && f == SubmitError::Storage(e),
            Ok(()) => r matches Ok(out) && is_confirmation_email(
                out,
                *client,
                submission.subscriber.email@,
                confirmation_link_text(base_url@, submission.token@),
            ),
        },
{
    match stored {
        Err(e) => Err(SubmitError::Storage(e)),
        Ok(()) => {
            let link = confirmation_link(base_url, &submission.token);
            Ok(confirmation_email(client, &submission.subscriber.email, link.as_str()))
        },
    }
}

/// The last step of a submission: it succeeded exactly where the message
/// went out. What was written stays written either way.
pub fn finish_submit(dispatched: Result<(), DispatchError>) -> (r: Result<(), SubmitError>)
    ensures
        r == submit_outcome(None, Ok(()), dispatched),
{
    match dispatched {
        Ok(()) => Ok(()),
        Err(e) => Err(SubmitError::Dispatch(e)),
    }
}

/// Writes a validated subscriber with `token` to `store` and builds the
/// confirmation message. Fails with `Storage`, and changes nothing, exactly
/// where the token is already taken.
pub fn enroll(
    store: &mut SubscriptionStore,
    client: &EmailClient,
    base_url: &str,
    subscriber: NewSubscriber,
    token: Token,
    now: i64,
) -> (r: Result<Receipt, SubmitError>)
    ensures
        final(store)@.wf(),
        match r {
            Ok(receipt) => {
                &&& !old(store)@.has_token(token@)
                &&& final(store)@ == old(store)@.create(
                    subscriber.email@,
                    subscriber.name@,
                    token@,
                    now,
                )
                &&& receipt.subscriber_id.0 == old(store)@.subscribers.len()
                &&& receipt.token@ == token@
                &&& is_confirmation_email(
                    receipt.email,
                    *client,
                    subscriber.email@,
                    confirmation_link_text(base_url@, token@),
                )
            },
            Err(e) => {
                &&& old(store)@.has_token(token@)
                &&& e == SubmitError::Storage(StoreError::Internal)
                &&& final(store)@ == old(store)@
            },
        },
{
    let submission = Submission { subscriber: subscriber.clone(), token: token.clone() };
    match store.create(subscriber, token, now) {
        Err(e) => Err(SubmitError::Storage(e)),
        Ok(id) => match after_store(client, base_url, &submission, Ok(())) {
            Ok(email) => Ok(Receipt { subscriber_id: id, token: submission.token, email }),
            Err(e) => Err(e),
        },
    }
}

/// Handles one submission over `store`: validates, draws a token, writes the
/// subscriber awaiting confirmation with that token, and builds the
/// confirmation message, which is then to be sent. Invalid input fails with
/// `InvalidInput` and changes nothing. Valid input is written unless the
/// token drawn is already taken, which fails with `Storage` and changes
/// nothing; that cannot happen to a store without tokens.
pub fn submit(
    store: &mut SubscriptionStore,
    client: &EmailClient,
    base_url: &str,
    name: &str,
    email: &str,
    now: i64,
) -> (r: Result<Receipt, SubmitError>)
    ensures
        final(store)@.wf(),
        match r {
            Ok(receipt) => {
                &&& submission_fault(name@, email@) is None
                &&& token_is_well_formed(receipt.token@)
                &&& !old(store)@.has_token(receipt.token@)
                &&& final(store)@ == old(store)@.create(email@, name@, receipt.token@, now)
                &&& receipt.subscriber_id.0 == old(store)@.subscribers.len()
                &&& is_confirmation_email(
                    receipt.email,
                    *client,
                    email@,
                    confirmation_link_text(base_url@, receipt.token@),
                )
            },
            Err(SubmitError::InvalidInput(fault)) => {
                &&& submission_fault(name@, email@) == Some(fault)
                &&& final(store)@ == old(store)@
            },
            Err(SubmitError::Storage(e)) => {
                &&& submission_fault(name@, email@) is None
                &&& e == StoreError::Internal
                &&& final(store)@ == old(store)@
                &&& exists|taken: Seq<char>|
                    token_is_well_formed(taken) && #[trigger] old(store)@.has_token(taken)
            },
            Err(SubmitError::Dispatch(_)) => false,
        },
        submission_fault(name@, email@) is Some ==> r is Err,
        r matches Ok(receipt) ==> {
            &&& final(store)@.resolve(receipt.token@) == Some(receipt.subscriber_id.0 as nat)
            &&& final(store)@.status_of(receipt.subscriber_id.0 as nat) == Some(
                SubscriberStatus::PendingConfirmation,
            )
        },
{
    match begin_submit(name, email) {
        Err(e) => {
            store.check_invariant();
            Err(e)
        },
        Ok(submission) => {
            let ghost drawn = submission.token@;
            let r = enroll(store, client, base_url, submission.subscriber, submission.token, now);
            assert(r is Err ==> old(store)@.has_token(drawn));
            r
        },
    }
}

/// The first step of a confirmation: the token to look up, unless none or an
/// empty one was given.
pub fn check_token<'a>(token: Option<&'a str>) -> (r: Result<&'a str, ConfirmError>)
    ensures
        match r {
            Ok(t) => token == Some(t) && t@.len() > 0,
            Err(e) => e == ConfirmError::MissingToken && (token matches Some(t) ==> t@.len() == 0),
        },
{
    match token {
        None => Err(ConfirmError::MissingToken),
        Some(t) => if t.is_empty() {
            Err(ConfirmError::MissingToken)
        } else {
            Ok(t)
        },
    }
}

/// The last step of a confirmation: an unknown token is `Unauthorized`, any
/// other failure of the store is `Storage`.
pub fn after_confirm(stored: Result<(), StoreError>) -> (r: Result<(), ConfirmError>)
    ensures
        r == redeem_outcome(stored),
{
    match stored {
        Ok(()) => Ok(()),
        Err(StoreError::TokenNotFound) => Err(ConfirmError::Unauthorized),
        Err(StoreError::Internal) => Err(ConfirmError::Storage),
    }
}

/// Handles one confirmation over `store`. A token that was issued confirms
/// the subscriber it belongs to, whatever the subscriber's status was; no
/// token, an empty one or an unknown one changes nothing.
pub fn confirm(store: &mut SubscriptionStore, token: Option<&str>) -> (r: Result<(), ConfirmError>)
    ensures
        final(store)@.wf(),
        match r {
            Ok(()) => token matches Some(t) && t@.len() > 0 && old(store)@.has_token(t@)
                && final(store)@ == old(store)@.confirm(t@),
            Err(ConfirmError::MissingToken) => (token matches Some(t) ==> t@.len() == 0)
                && final(store)@ == old(store)@,
            Err(ConfirmError::Unauthorized) => token matches Some(t) && t@.len() > 0 && !old(
                store,
            )@.has_token(t@) && final(store)@ == old(store)@,
            Err(ConfirmError::Storage) => false,
        },
        (token matches Some(t) && t@.len() > 0 && old(store)@.has_token(t@)) ==> r is Ok,
        r is Ok ==> (token matches Some(t) && final(store)@.status_of(old(store)@.tokens[t@])
            == Some(SubscriberStatus::Confirmed)),
{
    match check_token(token) {
        Err(e) => {
            store.check_invariant();
            Err(e)
        },
        Ok(t) => after_confirm(store.confirm(t)),
    }
}

/// The HTTP status that answers a submission: 200 where it succeeded, 400
/// where the input was turned down, 500 for a fault of the store or of the
/// provider.
pub open spec fn submit_status_code(outcome: Result<(), SubmitError>) -> u16 {
    match outcome {
        Ok(()) => 200,
        Err(SubmitError::InvalidInput(_)) => 400,
        Err(SubmitError::Storage(_)) => 500,
        Err(SubmitError::Dispatch(_)) => 500,
    }
}

/// The HTTP status that answers a confirmation: 200 where it succeeded, 400
/// where no token was given, 401 for an unknown token, 500 for a fault of
/// the store.
pub open spec fn confirm_status_code(outcome: Result<(), ConfirmError>) -> u16 {
    match outcome {
        Ok(()) => 200,
        Err(ConfirmError::MissingToken) => 400,
        Err(ConfirmError::Unauthorized) => 401,
        Err(ConfirmError::Storage) => 500,
    }
}

/// The text that answers a submission: the reason where the input was
/// turned down, and nothing otherwise, so that no detail of a fault leaks.
pub open spec fn submit_response_text(outcome: Result<(), SubmitError>) -> Seq<char> {
    match outcome {
        Err(SubmitError::InvalidInput(fault)) => reason_text(fault),
        _ => Seq::empty(),
    }
}

/// Decides `submit_status_code`.
pub fn submit_status(outcome: &Result<(), SubmitError>) -> (status: u16)
    ensures
        status == submit_status_code(*outcome),
{
    match outcome {
        Ok(()) => 200,
        Err(SubmitError::InvalidInput(_)) => 400,
        Err(SubmitError::Storage(_)) => 500,
        Err(SubmitError::Dispatch(_)) => 500,
    }
}

/// Decides `confirm_status_code`.
pub fn confirm_status(outcome: &Result<(), ConfirmError>) -> (status: u16)
    ensures
        status == confirm_status_code(*outcome),
{
    match outcome {
        Ok(()) => 200,
        Err(ConfirmError::MissingToken) => 400,
        Err(ConfirmError::Unauthorized) => 401,
        Err(ConfirmError::Storage) => 500,
    }
}

/// Decides `submit_response_text`.
pub fn submit_response_body(outcome: &Result<(), SubmitError>) -> (body: &'static str)
    ensures
        body@ == submit_response_text(*outcome),
{
    match outcome {
        Err(SubmitError::InvalidInput(fault)) => fault.reason(),
        _ => {
            proof {
                reveal_strlit("");
                assert(""@ =~= Seq::<char>::empty());
            }
            ""
        },
    }
}

/// A submission with an empty name, an empty address or a malformed address
/// is turned down, whatever the store and the provider would have done, and
/// is answered with status 400.
pub proof fn lemma_bad_input_is_invalid(
    name: Seq<char>,
    email: Seq<char>,
    stored: Result<(), StoreError>,
    dispatched: Result<(), DispatchError>,
)
    requires
        is_blank(name) || is_blank(email) || !email_is_well_formed(email),
    ensures
        submission_fault(name, email) is Some,
        submit_outcome(submission_fault(name, email), stored, dispatched) == Err::<
            (),
            SubmitError,
        >(SubmitError::InvalidInput(submission_fault(name, email)->0)),
        submit_status_code(submit_outcome(submission_fault(name, email), stored, dispatched))
            == 400,
{
}

/// A submission succeeds exactly where the input passed, the write
/// succeeded and the message went out.
pub proof fn lemma_submit_succeeds_only_whole(
    fault: Option<ValidationError>,
    stored: Result<(), StoreError>,
    dispatched: Result<(), DispatchError>,
)
    ensures
        submit_outcome(fault, stored, dispatched) is Ok <==> fault is None && stored is Ok
            && dispatched is Ok,
{
}

/// Where the message does not go out, the submission fails with `Dispatch`
/// and status 500, and the subscriber that was written for it stays: it
/// awaits confirmation, and its token still resolves to it.
pub proof fn lemma_failed_dispatch_keeps_what_was_written(
    v: StoreView,
    email: Seq<char>,
    name: Seq<char>,
    token: Seq<char>,
    now: i64,
    failure: DispatchError,
)
    ensures
        submit_outcome(None, Ok(()), Err(failure)) == Err::<(), SubmitError>(
            SubmitError::Dispatch(failure),
        ),
        submit_status_code(submit_outcome(None, Ok(()), Err(failure))) == 500,
        ({
            let w = v.create(email, name, token, now);
            let id = v.subscribers.len();
            &&& w.resolve(token) == Some(id)
            &&& w.status_of(id) == Some(SubscriberStatus::PendingConfirmation)
        }),
{
}

/// A token that was never issued is `Unauthorized`, is answered with status
/// 401, and changes nothing.
pub proof fn lemma_unknown_token_is_unauthorized(v: StoreView, token: Seq<char>)
    requires
        token.len() > 0,
        !v.has_token(token),
    ensures
        confirm_outcome(Some(token), Err(StoreError::TokenNotFound)) == Err::<(), ConfirmError>(
            ConfirmError::Unauthorized,
        ),
        confirm_status_code(confirm_outcome(Some(token), Err(StoreError::TokenNotFound))) == 401,
        v.confirm(token) == v,
{
}

} // verus!
