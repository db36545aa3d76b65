use newsletter::domain::{validate, NewSubscriber};
use newsletter::store::{StoreError, SubscriberId, SubscriberStatus, SubscriptionStore};
use newsletter::token::Token;

fn person(name: &str, email: &str) -> NewSubscriber {
    validate(name, email).unwrap()
}

fn token(text: &str) -> Token {
    Token::parse(text).unwrap()
}

const FIRST: &str = "aaaaaaaaaaaaaaaaaaaaaaaaa";
const SECOND: &str = "bbbbbbbbbbbbbbbbbbbbbbbbb";
const THIRD: &str = "ccccccccccccccccccccccccc";

#[test]
fn a_new_store_holds_nothing() {
    let store = SubscriptionStore::new();
    assert_eq!(store.subscriber_count(), 0);
    assert_eq!(store.token_count(), 0);
    assert_eq!(store.resolve(FIRST), None);
    assert_eq!(store.subscriber(SubscriberId(0)), None);
    assert_eq!(store.status_of(SubscriberId(0)), None);
}

#[test]
fn a_created_subscriber_awaits_confirmation() {
    let mut store = SubscriptionStore::new();
    let id = store.create(person("ankit sharma", "email@gmail.com"), token(FIRST), 1_700_000_000);
    assert_eq!(id, Ok(SubscriberId(0)));
    assert_eq!(store.subscriber_count(), 1);
    assert_eq!(store.token_count(), 1);
    let saved = store.subscriber(SubscriberId(0)).unwrap();
    assert_eq!(saved.id, SubscriberId(0));
    assert_eq!(saved.email.as_str(), "email@gmail.com");
    assert_eq!(saved.name.as_str(), "ankit sharma");
    assert_eq!(saved.status, SubscriberStatus::PendingConfirmation);
    assert_eq!(saved.status.as_str(), "pending_confirmation");
    assert_eq!(saved.subscribed_at, 1_700_000_000);
    assert_eq!(store.resolve(FIRST), Some(SubscriberId(0)));
    assert_eq!(store.status_of(SubscriberId(0)), Some(SubscriberStatus::PendingConfirmation));
}

#[test]
fn identifiers_count_up_from_zero() {
    let mut store = SubscriptionStore::new();
    assert_eq!(store.create(person("a", "a@x.y"), token(FIRST), 1), Ok(SubscriberId(0)));
    assert_eq!(store.create(person("b", "b@x.y"), token(SECOND), 2), Ok(SubscriberId(1)));
    assert_eq!(store.create(person("c", "c@x.y"), token(THIRD), 3), Ok(SubscriberId(2)));
    assert_eq!(store.resolve(FIRST), Some(SubscriberId(0)));
    assert_eq!(store.resolve(SECOND), Some(SubscriberId(1)));
    assert_eq!(store.resolve(THIRD), Some(SubscriberId(2)));
    assert_eq!(store.subscriber(SubscriberId(1)).unwrap().name.as_str(), "b");
    assert_eq!(store.subscriber(SubscriberId(3)), None);
}

#[test]
fn a_token_that_is_taken_fails_and_writes_nothing() {
    let mut store = SubscriptionStore::new();
    store.create(person("a", "a@x.y"), token(FIRST), 1).unwrap();
    let again = store.create(person("b", "b@x.y"), token(FIRST), 2);
    assert_eq!(again, Err(StoreError::Internal));
    assert_eq!(store.subscriber_count(), 1);
    assert_eq!(store.token_count(), 1);
    assert_eq!(store.resolve(FIRST), Some(SubscriberId(0)));
    assert_eq!(store.subscriber(SubscriberId(0)).unwrap().name.as_str(), "a");
}

#[test]
fn the_same_address_may_subscribe_twice() {
    let mut store = SubscriptionStore::new();
    assert_eq!(store.create(person("a", "a@x.y"), token(FIRST), 1), Ok(SubscriberId(0)));
    assert_eq!(store.create(person("a", "a@x.y"), token(SECOND), 1), Ok(SubscriberId(1)));
    assert_eq!(store.subscriber_count(), 2);
    assert_eq!(store.token_count(), 2);
}

#[test]
fn an_unknown_token_is_not_found_and_changes_nothing() {
    let mut store = SubscriptionStore::new();
    store.create(person("a", "a@x.y"), token(FIRST), 1).unwrap();
    assert_eq!(store.confirm(SECOND), Err(StoreError::TokenNotFound));
    assert_eq!(store.confirm(""), Err(StoreError::TokenNotFound));
    assert_eq!(store.confirm("aaaaaaaaaaaaaaaaaaaaaaaa"), Err(StoreError::TokenNotFound));
    assert_eq!(store.status_of(SubscriberId(0)), Some(SubscriberStatus::PendingConfirmation));
    assert_eq!(store.subscriber_count(), 1);
    assert_eq!(store.token_count(), 1);
}

#[test]
fn a_token_confirms_its_own_subscriber_only() {
    let mut store = SubscriptionStore::new();
    store.create(person("a", "a@x.y"), token(FIRST), 1).unwrap();
    store.create(person("b", "b@x.y"), token(SECOND), 2).unwrap();
    store.create(person("c", "c@x.y"), token(THIRD), 3).unwrap();
    assert_eq!(store.confirm(SECOND), Ok(()));
    assert_eq!(store.status_of(SubscriberId(0)), Some(SubscriberStatus::PendingConfirmation));
    assert_eq!(store.status_of(SubscriberId(1)), Some(SubscriberStatus::Confirmed));
    assert_eq!(store.status_of(SubscriberId(2)), Some(SubscriberStatus::PendingConfirmation));
    let confirmed = store.subscriber(SubscriberId(1)).unwrap();
    assert_eq!(confirmed.name.as_str(), "b");
    assert_eq!(confirmed.email.as_str(), "b@x.y");
    assert_eq!(confirmed.subscribed_at, 2);
    assert_eq!(confirmed.status.as_str(), "confirmed");
    assert_eq!(store.resolve(SECOND), Some(SubscriberId(1)));
    assert_eq!(store.subscriber_count(), 3);
    assert_eq!(store.token_count(), 3);
}

#[test]
fn confirming_twice_is_confirming_once() {
    let mut store = SubscriptionStore::new();
    store.create(person("a", "a@x.y"), token(FIRST), 1).unwrap();
    assert_eq!(store.confirm(FIRST), Ok(()));
    assert_eq!(store.confirm(FIRST), Ok(()));
    assert_eq!(store.status_of(SubscriberId(0)), Some(SubscriberStatus::Confirmed));
    assert_eq!(store.subscriber_count(), 1);
    assert_eq!(store.token_count(), 1);
}

#[test]
fn a_confirmed_subscriber_stays_confirmed() {
    let mut store = SubscriptionStore::new();
    store.create(person("a", "a@x.y"), token(FIRST), 1).unwrap();
    store.confirm(FIRST).unwrap();
    store.create(person("b", "b@x.y"), token(SECOND), 2).unwrap();
    assert_eq!(store.confirm(THIRD), Err(StoreError::TokenNotFound));
    store.confirm(SECOND).unwrap();
    assert_eq!(store.status_of(SubscriberId(0)), Some(SubscriberStatus::Confirmed));
    assert_eq!(store.status_of(SubscriberId(1)), Some(SubscriberStatus::Confirmed));
}

#[test]
fn checking_the_invariant_changes_nothing() {
    let mut store = SubscriptionStore::new();
    store.create(person("a", "a@x.y"), token(FIRST), 1).unwrap();
    store.check_invariant();
    assert_eq!(store.subscriber_count(), 1);
    assert_eq!(store.resolve(FIRST), Some(SubscriberId(0)));
}
