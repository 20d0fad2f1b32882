use zero2prod::domain::{SubscriberEmail, ValidationField, ValidationReason};
use zero2prod::email::{build_email_request, delivery_result, DeliveryError, EmailRequest, ProviderResponse};
use zero2prod::store::{SubscriberStatus, SubscriptionStore};
use zero2prod::workflow::{confirm, submit, conclude_delivery, FormData, WorkflowError};

fn sender() -> SubscriberEmail {
    SubscriberEmail::parse("newsletter@zero2prod.dev".to_string()).expect("valid sender")
}

fn form(name: &str, email: &str) -> FormData {
    FormData { name: name.to_string(), email: email.to_string() }
}

#[test]
fn subscribe_returns_200_when_data_is_present() {
    let mut store = SubscriptionStore::new();
    let mut outbox: Vec<EmailRequest> = Vec::new();

    let receipt = submit(
        &mut store,
        form("le guin", "ursula_le_guin@gmail.com"),
        "http://127.0.0.1",
        &sender(),
        200,
    )
    .expect("valid submission succeeds");
    outbox.push(receipt.email);

    let email = "ursula_le_guin@gmail.com".to_string();
    let row = store.find_by_email(&email).expect("row was persisted");
    assert_eq!(row.status, SubscriberStatus::Pending);
    assert_eq!(row.email.as_str(), "ursula_le_guin@gmail.com");
    assert_eq!(row.name.as_str(), "le guin");

    assert_eq!(outbox.len(), 1);
    let sent = &outbox[0];
    assert_eq!(sent.url.as_str(), "http://127.0.0.1/messages");
    assert_eq!(sent.from.as_str(), "newsletter@zero2prod.dev");
    assert_eq!(sent.to.as_str(), "ursula_le_guin@gmail.com");
    assert_eq!(
        receipt.confirmation_link,
        format!(
            "http://127.0.0.1/subscriptions/confirm?subscription_token={}",
            receipt.token
        )
    );
    assert!(sent.html_body.contains(receipt.confirmation_link.as_str()));
    assert!(sent.text_body.contains(receipt.confirmation_link.as_str()));

    assert_eq!(conclude_delivery(ProviderResponse::Status(200)), Ok(()));
}

#[test]
fn subscribe_returns_400_when_data_is_missing() {
    let mut store = SubscriptionStore::new();
    let cases = [
        form("le guin", ""),
        form("", "ursula_le_guin@gmail.com"),
        form("", ""),
    ];
    for case in cases {
        let r = submit(&mut store, case, "http://127.0.0.1", &sender(), 200);
        let e = r.err().expect("invalid form input is refused");
        assert!(matches!(e, WorkflowError::Invalid(_)));
        assert_eq!(store.subscriber_count(), 0);
        assert_eq!(store.token_count(), 0);
    }

    let e = submit(&mut store, form("le guin", ""), "http://127.0.0.1", &sender(), 200)
        .err()
        .expect("empty email is refused");
    match e {
        WorkflowError::Invalid(v) => {
            assert_eq!(v.field, ValidationField::Email);
            assert_eq!(v.reason, ValidationReason::MalformedEmail);
        },
        other => panic!("unexpected error {:?}", other),
    }
}

#[test]
fn send_email_times_out_if_the_server_takes_too_long() {
    // The provider answering after the configured timeout surfaces as a
    // timeout; the subscriber persisted before the send stays Pending.
    let mut store = SubscriptionStore::new();
    submit(
        &mut store,
        form("le guin", "ursula_le_guin@gmail.com"),
        "http://127.0.0.1",
        &sender(),
        200,
    )
    .expect("valid submission succeeds");

    let r = conclude_delivery(ProviderResponse::TimedOut);
    assert_eq!(r, Err(WorkflowError::Delivery(DeliveryError::Timeout)));

    let email = "ursula_le_guin@gmail.com".to_string();
    let row = store.find_by_email(&email).expect("row was not rolled back");
    assert_eq!(row.status, SubscriberStatus::Pending);
}

#[test]
fn send_email_succeeds_if_the_server_returns_200() {
    assert_eq!(delivery_result(ProviderResponse::Status(200)), Ok(()));
    assert_eq!(delivery_result(ProviderResponse::Status(204)), Ok(()));
}

#[test]
fn non_2xx_provider_status_is_a_rejection() {
    assert_eq!(
        delivery_result(ProviderResponse::Status(500)),
        Err(DeliveryError::ProviderRejected(500))
    );
    assert_eq!(
        delivery_result(ProviderResponse::Status(199)),
        Err(DeliveryError::ProviderRejected(199))
    );
    assert_eq!(delivery_result(ProviderResponse::TransportFailure), Err(DeliveryError::Transport));
}

#[test]
fn confirming_an_unissued_token_is_token_not_found() {
    let mut store = SubscriptionStore::new();
    submit(
        &mut store,
        form("le guin", "ursula_le_guin@gmail.com"),
        "http://127.0.0.1",
        &sender(),
        200,
    )
    .expect("valid submission succeeds");

    let bogus = "0123456789abcdefghijklmno".to_string();
    assert_eq!(confirm(&mut store, &bogus), Err(WorkflowError::TokenNotFound));

    let email = "ursula_le_guin@gmail.com".to_string();
    let row = store.find_by_email(&email).expect("no subscriber was mutated");
    assert_eq!(row.status, SubscriberStatus::Pending);
}

#[test]
fn submitted_token_confirms_through_the_workflow() {
    let mut store = SubscriptionStore::new();
    let receipt = submit(
        &mut store,
        form("le guin", "ursula_le_guin@gmail.com"),
        "http://127.0.0.1",
        &sender(),
        200,
    )
    .expect("valid submission succeeds");

    assert_eq!(confirm(&mut store, &receipt.token), Ok(()));
    let email = "ursula_le_guin@gmail.com".to_string();
    let row = store.find_by_email(&email).expect("row is there");
    assert_eq!(row.status, SubscriberStatus::Confirmed);
    assert_eq!(row.id, receipt.subscriber_id);
}

#[test]
fn send_email_fires_a_request_to_base_url() {
    let from = sender();
    let recipient =
        SubscriberEmail::parse("ursula_le_guin@gmail.com".to_string()).expect("valid email");
    let req = build_email_request(
        "http://127.0.0.1:8080",
        &from,
        &recipient,
        "Welcome!".to_string(),
        "<p>welcome</p>".to_string(),
        "welcome".to_string(),
        200,
    );
    assert_eq!(req.url, "http://127.0.0.1:8080/messages");
    assert_eq!(req.from, "newsletter@zero2prod.dev");
    assert_eq!(req.to, "ursula_le_guin@gmail.com");
    assert_eq!(req.subject, "Welcome!");
    assert_eq!(req.html_body, "<p>welcome</p>");
    assert_eq!(req.text_body, "welcome");
    assert_eq!(req.timeout_ms, 200);
}
