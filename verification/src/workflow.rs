use vstd::prelude::*;

use crate::domain::{
    form_rejection, valid_email, valid_subscriber_name, NewSubscriber, SubscriberEmail,
    ValidationError,
};
use crate::email::{DeliveryError, EmailRequest, ProviderResponse};
use crate::store::{
    has_email, has_id, has_token, token_owner, with_confirmed, StoreError, SubscriberStatus,
    SubscriptionStore,
};
use crate::token::valid_token;

verus! {

/// The raw form fields of an incoming submission, exactly as the
/// transport handed them over.
pub struct FormData {
    pub name: String,
    pub email: String,
}

/// Failures of the two workflow entry points. Each lower-level failure
/// is carried one level up without losing its kind.
#[derive(Clone, Copy, PartialEq, Eq, Structural, Debug)]
pub enum WorkflowError {
    /// A form field was rejected by validation.
    Invalid(ValidationError),
    /// The store refused or could not complete the unit of work.
    Persistence(StoreError),
    /// The confirmation email was not delivered.
    Delivery(DeliveryError),
    /// The presented confirmation token was never issued.
    TokenNotFound,
}

/// What a committed submission hands back: the new subscriber's id,
/// its confirmation token, the link built from that token, and the
/// confirmation email ready for the transport to send.
pub struct SubmissionReceipt {
    pub subscriber_id: u128,
    pub token: String,
    pub confirmation_link: String,
    pub email: EmailRequest,
}

/// Builds the link a subscriber follows to confirm, carrying the token
/// as its query parameter.
pub fn confirmation_link(base_url: &str, token: &String) -> (r: String)
    ensures
        r@ == base_url@ + "/subscriptions/confirm?subscription_token="@ + token@,
{
    let mut link = base_url.to_owned();
    link.append("/subscriptions/confirm?subscription_token=");
    link.append(token.as_str());
    proof {
        assert(link@ =~= base_url@ + "/subscriptions/confirm?subscription_token="@ + token@);
    }
    link
}

/// The submission entry point, up to its durability boundary: validates
/// the form, persists the `Pending` subscriber together with its fresh
/// token as one unit of work, and assembles the confirmation email. The
/// transport then sends `receipt.email`; persistence has committed
/// strictly before that, so a link is never emailed that the store does
/// not hold. On any error nothing is persisted.
pub fn submit(
    store: &mut SubscriptionStore,
    form: FormData,
    base_url: &str,
    sender: &SubscriberEmail,
    timeout_ms: u64,
) -> (r: Result<SubmissionReceipt, WorkflowError>)
    requires
        old(store).wf(),
    ensures
        final(store).wf(),
        r is Err ==> *final(store) == *old(store),
        !(valid_subscriber_name(form.name@) && valid_email(form.email@)) <==> r == Err::<
            SubmissionReceipt,
            WorkflowError,
        >(WorkflowError::Invalid(form_rejection(form.name@, form.email@))),
        valid_subscriber_name(form.name@) && valid_email(form.email@) && old(
            store,
        ).subscribers().len() == 0 && old(store).tokens().len() == 0 ==> r is Ok,
        valid_subscriber_name(form.name@) && valid_email(form.email@) ==> ({
            &&& (has_email(old(store).subscribers(), form.email@) <==> r == Err::<
                SubmissionReceipt,
                WorkflowError,
            >(WorkflowError::Persistence(StoreError::Duplicate)))
            &&& !has_email(old(store).subscribers(), form.email@) ==> (r is Ok || r == Err::<
                SubmissionReceipt,
                WorkflowError,
            >(WorkflowError::Persistence(StoreError::Unavailable)))
        }),
        r matches Ok(receipt) ==> ({
            let subs0 = old(store).subscribers();
            let added = final(store).subscribers().last();
            &&& valid_subscriber_name(form.name@) && valid_email(form.email@)
            &&& !has_email(subs0, form.email@)
            &&& final(store).subscribers() == subs0.push(added)
            &&& added.email@ == form.email@
            &&& added.name@ == form.name@
            &&& added.status == SubscriberStatus::Pending
            &&& added.id == receipt.subscriber_id
            &&& !has_id(subs0, receipt.subscriber_id)
            &&& valid_token(receipt.token@)
            &&& !has_token(old(store).tokens(), receipt.token@)
            &&& final(store).tokens() == old(store).tokens().push(final(store).tokens().last())
            &&& final(store).tokens().last().token@ == receipt.token@
            &&& final(store).tokens().last().subscriber_id == receipt.subscriber_id
            &&& receipt.confirmation_link@ == base_url@
                + "/subscriptions/confirm?subscription_token="@ + receipt.token@
            &&& receipt.email.url@ == base_url@ + "/messages"@
            &&& receipt.email.from@ == sender@
            &&& receipt.email.to@ == form.email@
            &&& receipt.email.subject@ == "Welcome!"@
            &&& receipt.email.html_body@ == "Welcome to our newsletter!<br />Click <a href=\""@
                + receipt.confirmation_link@ + "\">here</a> to confirm your subscription."@
            &&& receipt.email.text_body@ == "Welcome to our newsletter!\nVisit "@
                + receipt.confirmation_link@ + " to confirm your subscription."@
            &&& receipt.email.timeout_ms == timeout_ms
        }),
{
    let new_subscriber = match NewSubscriber::try_from_form(form.name, form.email) {
        Ok(ns) => ns,
        Err(e) => {
            return Err(WorkflowError::Invalid(e));
        },
    };
    let to = new_subscriber.email.as_ref().clone();
    let from = sender.as_ref().clone();

    let (subscriber_id, token) = match store.create_pending_subscriber(new_subscriber) {
        Ok(pair) => pair,
        Err(e) => {
            return Err(WorkflowError::Persistence(e));
        },
    };

    let link = confirmation_link(base_url, &token);
    let (html_body, text_body) = confirmation_email_bodies(&link);
    let url = base_url.to_owned().concat("/messages");
    let email = EmailRequest {
        url,
        from,
        to,
        subject: "Welcome!".to_owned(),
        html_body,
        text_body,
        timeout_ms,
    };
    Ok(SubmissionReceipt { subscriber_id, token, confirmation_link: link, email })
}

/// The confirmation email's two bodies, html first, built around the
/// given link. The workflow and any outside driver share this one
/// template, so what is sent is what `submit`'s contract fixes.
pub fn confirmation_email_bodies(link: &String) -> (r: (String, String))
    ensures
        r.0@ == "Welcome to our newsletter!<br />Click <a href=\""@ + link@
            + "\">here</a> to confirm your subscription."@,
        r.1@ == "Welcome to our newsletter!\nVisit "@ + link@ + " to confirm your subscription."@,
{
    let mut html_body = "Welcome to our newsletter!<br />Click <a href=\"".to_owned();
    html_body.append(link.as_str());
    html_body.append("\">here</a> to confirm your subscription.");
    let mut text_body = "Welcome to our newsletter!\nVisit ".to_owned();
    text_body.append(link.as_str());
    text_body.append(" to confirm your subscription.");
    proof {
        assert(html_body@ =~= "Welcome to our newsletter!<br />Click <a href=\""@ + link@
            + "\">here</a> to confirm your subscription."@);
        assert(text_body@ =~= "Welcome to our newsletter!\nVisit "@ + link@
            + " to confirm your subscription."@);
    }
    (html_body, text_body)
}

/// Judges the transport's report on the confirmation email, one level
/// up from the notifier: a delivery failure surfaces as
/// `WorkflowError::Delivery` with its kind intact, and is not retried.
/// The subscriber persisted by `submit` stays durably `Pending` either
/// way and can be confirmed by a later link.
pub fn conclude_delivery(response: ProviderResponse) -> (r: Result<(), WorkflowError>)
    ensures
        r == match response {
            ProviderResponse::Status(s) => if 200 <= s < 300 {
                Ok::<(), WorkflowError>(())
            } else {
                Err(WorkflowError::Delivery(DeliveryError::ProviderRejected(s)))
            },
            ProviderResponse::TransportFailure => Err(
                WorkflowError::Delivery(DeliveryError::Transport),
            ),
            ProviderResponse::TimedOut => Err(WorkflowError::Delivery(DeliveryError::Timeout)),
        },
{
    match crate::email::delivery_result(response) {
        Ok(()) => Ok(()),
        Err(e) => Err(WorkflowError::Delivery(e)),
    }
}

/// The confirmation entry point: resolves the token and marks its
/// subscriber `Confirmed`, atomically with the lookup. A token the
/// store never issued is `TokenNotFound` and mutates nothing.
pub fn confirm(store: &mut SubscriptionStore, token: &String) -> (r: Result<(), WorkflowError>)
    requires
        old(store).wf(),
    ensures
        final(store).wf(),
        !has_token(old(store).tokens(), token@) ==> r == Err::<(), WorkflowError>(
            WorkflowError::TokenNotFound,
        ) && *final(store) == *old(store),
        has_token(old(store).tokens(), token@) ==> r == Ok::<(), WorkflowError>(())
            && final(store).subscribers() == with_confirmed(
            old(store).subscribers(),
            token_owner(old(store).tokens(), token@),
        ) && final(store).tokens() == old(store).tokens(),
{
    match store.confirm_subscriber(token) {
        Ok(()) => Ok(()),
        Err(_) => Err(WorkflowError::TokenNotFound),
    }
}

} // verus!
