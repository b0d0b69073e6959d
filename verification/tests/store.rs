use newsletter::domain::NewSubscriber;
use newsletter::domain::SubscribeForm;
use newsletter::errors::SubscribeError;
use newsletter::store::StoreModel;
use newsletter::store::SubscriberStatus;

fn subscriber(name: &str, email: &str) -> NewSubscriber {
    NewSubscriber::try_from(SubscribeForm { email: email.to_string(), name: name.to_string() })
        .unwrap()
}

#[test]
fn persisted_subscriber_is_pending_with_its_fields() {
    let mut store = StoreModel::new();
    let sub = subscriber("test", "test@test.com");
    store
        .persist_new_subscriber(7, &sub, &"AAAAAAAAAAAAAAAAAAAAAAAAA".to_string())
        .unwrap();
    assert_eq!(store.subscribers.len(), 1);
    assert_eq!(store.subscribers[0].id, 7);
    assert_eq!(store.subscribers[0].email, "test@test.com");
    assert_eq!(store.subscribers[0].name, "test");
    assert_eq!(store.subscribers[0].status, SubscriberStatus::PendingConfirmation);
    assert_eq!(store.tokens.len(), 1);
    assert_eq!(store.tokens[0].token, "AAAAAAAAAAAAAAAAAAAAAAAAA");
    assert_eq!(store.tokens[0].subscriber_id, 7);
}

#[test]
fn duplicate_identifier_fails_the_insert_step() {
    let mut store = StoreModel::new();
    let first = subscriber("test", "test@test.com");
    let second = subscriber("other", "other@test.com");
    store
        .persist_new_subscriber(7, &first, &"AAAAAAAAAAAAAAAAAAAAAAAAA".to_string())
        .unwrap();
    let err = store
        .persist_new_subscriber(7, &second, &"BBBBBBBBBBBBBBBBBBBBBBBBB".to_string())
        .unwrap_err();
    assert!(matches!(err, SubscribeError::InsertSubscriberError(_)));
    assert_eq!(err.status_code(), 500);
    // the rollback: the failed attempt left nothing behind
    assert_eq!(store.subscribers.len(), 1);
    assert_eq!(store.tokens.len(), 1);
}

#[test]
fn duplicate_token_fails_the_token_step_and_rolls_back() {
    let mut store = StoreModel::new();
    let first = subscriber("test", "test@test.com");
    let second = subscriber("other", "other@test.com");
    let token = "AAAAAAAAAAAAAAAAAAAAAAAAA".to_string();
    store.persist_new_subscriber(7, &first, &token).unwrap();
    let err = store.persist_new_subscriber(8, &second, &token).unwrap_err();
    assert!(matches!(
        &err,
        SubscribeError::StoreTokenError(st) if st.0 == "duplicate subscription token"
    ));
    assert_eq!(err.status_code(), 500);
    // the rollback: no subscriber row without its token is ever durable
    assert_eq!(store.subscribers.len(), 1);
    assert_eq!(store.subscribers[0].id, 7);
    assert_eq!(store.tokens.len(), 1);
}

#[test]
fn token_for_an_unknown_subscriber_is_rejected() {
    let store = StoreModel::new();
    let mut tx = store.begin();
    let err = store
        .store_token(&mut tx, 7, &"AAAAAAAAAAAAAAAAAAAAAAAAA".to_string())
        .unwrap_err();
    assert_eq!(err.0, "unknown subscriber for token");
}

#[test]
fn confirming_a_known_token_flips_the_status() {
    let mut store = StoreModel::new();
    let sub = subscriber("test", "test@test.com");
    let token = "AAAAAAAAAAAAAAAAAAAAAAAAA".to_string();
    store.persist_new_subscriber(7, &sub, &token).unwrap();
    assert!(store.confirm_subscriber(&token));
    assert_eq!(store.subscribers[0].status, SubscriberStatus::Confirmed);
}

#[test]
fn confirming_twice_is_idempotent() {
    let mut store = StoreModel::new();
    let sub = subscriber("test", "test@test.com");
    let token = "AAAAAAAAAAAAAAAAAAAAAAAAA".to_string();
    store.persist_new_subscriber(7, &sub, &token).unwrap();
    assert!(store.confirm_subscriber(&token));
    assert!(store.confirm_subscriber(&token));
    assert_eq!(store.subscribers.len(), 1);
    assert_eq!(store.subscribers[0].status, SubscriberStatus::Confirmed);
}

#[test]
fn confirming_an_unknown_token_changes_nothing() {
    let mut store = StoreModel::new();
    let sub = subscriber("test", "test@test.com");
    store
        .persist_new_subscriber(7, &sub, &"AAAAAAAAAAAAAAAAAAAAAAAAA".to_string())
        .unwrap();
    assert!(!store.confirm_subscriber(&"BBBBBBBBBBBBBBBBBBBBBBBBB".to_string()));
    assert_eq!(store.subscribers[0].status, SubscriberStatus::PendingConfirmation);
}
