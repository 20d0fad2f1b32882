use zero2prod::domain::NewSubscriber;
use zero2prod::store::{StoreError, SubscriberStatus, SubscriptionStore};

fn new_subscriber(name: &str, email: &str) -> NewSubscriber {
    NewSubscriber::try_from_form(name.to_string(), email.to_string()).expect("valid form input")
}

#[test]
fn create_then_confirm_round_trips_to_the_same_subscriber() {
    let mut store = SubscriptionStore::new();
    let (id, token) = store
        .create_pending_subscriber(new_subscriber("le guin", "ursula_le_guin@gmail.com"))
        .expect("fresh email must be accepted");

    let email = "ursula_le_guin@gmail.com".to_string();
    let row = store.find_by_email(&email).expect("row was written");
    assert_eq!(row.id, id);
    assert_eq!(row.status, SubscriberStatus::Pending);
    assert_eq!(row.name.as_str(), "le guin");

    assert_eq!(store.find_token(&token), Some(id));

    store.confirm_subscriber(&token).expect("issued token must confirm");
    let row = store.find_by_email(&email).expect("row is still there");
    assert_eq!(row.id, id);
    assert_eq!(row.status, SubscriberStatus::Confirmed);
}

#[test]
fn confirm_is_idempotent() {
    let mut store = SubscriptionStore::new();
    let (id, token) = store
        .create_pending_subscriber(new_subscriber("le guin", "ursula_le_guin@gmail.com"))
        .expect("fresh email must be accepted");

    assert_eq!(store.confirm_subscriber(&token), Ok(()));
    assert_eq!(store.confirm_subscriber(&token), Ok(()));

    let email = "ursula_le_guin@gmail.com".to_string();
    let row = store.find_by_email(&email).expect("row is still there");
    assert_eq!(row.id, id);
    assert_eq!(row.status, SubscriberStatus::Confirmed);
    assert_eq!(store.subscriber_count(), 1);
}

#[test]
fn second_subscription_with_the_same_email_is_a_duplicate() {
    let mut store = SubscriptionStore::new();
    store
        .create_pending_subscriber(new_subscriber("le guin", "ursula_le_guin@gmail.com"))
        .expect("first submission wins");
    let r = store.create_pending_subscriber(new_subscriber("impostor", "ursula_le_guin@gmail.com"));
    assert_eq!(r, Err(StoreError::Duplicate));
    assert_eq!(store.subscriber_count(), 1);
    assert_eq!(store.token_count(), 1);
}

#[test]
fn confirming_a_never_issued_token_changes_nothing() {
    let mut store = SubscriptionStore::new();
    store
        .create_pending_subscriber(new_subscriber("le guin", "ursula_le_guin@gmail.com"))
        .expect("fresh email must be accepted");

    let bogus = "0123456789abcdefghijklmno".to_string();
    assert_eq!(store.confirm_subscriber(&bogus), Err(StoreError::UnknownToken));

    let email = "ursula_le_guin@gmail.com".to_string();
    let row = store.find_by_email(&email).expect("row untouched");
    assert_eq!(row.status, SubscriberStatus::Pending);
}
