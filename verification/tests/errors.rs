use newsletter::errors::error_chain_fmt;
use newsletter::errors::StoreTokenError;
use newsletter::errors::SubscribeError;

#[test]
fn validation_failures_are_the_clients() {
    let e = SubscribeError::ValidationError("bad input".to_string());
    assert_eq!(e.status_code(), 400);
}

#[test]
fn infrastructure_failures_are_the_servers() {
    let errors = [
        SubscribeError::StoreTokenError(StoreTokenError("lost".to_string())),
        SubscribeError::SendEmailError("timed out".to_string()),
        SubscribeError::PoolError("no connection".to_string()),
        SubscribeError::InsertSubscriberError("constraint".to_string()),
        SubscribeError::TransactionCommitError("aborted".to_string()),
    ];
    for e in errors {
        assert_eq!(e.status_code(), 500);
    }
}

#[test]
fn each_failure_names_its_stage() {
    assert_eq!(
        SubscribeError::ValidationError("bad input".to_string()).message(),
        "bad input"
    );
    assert_eq!(
        SubscribeError::StoreTokenError(StoreTokenError("lost".to_string())).message(),
        "failed to store the confirmation token for a new subscriber"
    );
    assert_eq!(
        SubscribeError::SendEmailError("timed out".to_string()).message(),
        "Failed to send a confirmation email"
    );
    assert_eq!(
        SubscribeError::PoolError("no connection".to_string()).message(),
        "Failed to acquire a postgres connection from the pool"
    );
    assert_eq!(
        SubscribeError::InsertSubscriberError("constraint".to_string()).message(),
        "Failed to insert new subscriber into the database"
    );
    assert_eq!(
        SubscribeError::TransactionCommitError("aborted".to_string()).message(),
        "Failed to commit SQL transaction to store new subscriber"
    );
    assert_eq!(
        StoreTokenError("lost".to_string()).message(),
        "A database error was encountered while trying to store a subscription token"
    );
}

#[test]
fn validation_failure_has_no_source() {
    let e = SubscribeError::ValidationError("bad input".to_string());
    assert!(e.source_message().is_none());
    let e = SubscribeError::PoolError("no connection".to_string());
    assert_eq!(e.source_message().unwrap(), "no connection");
}

#[test]
fn error_chain_fmt_renders_each_cause() {
    let chain = vec![
        "top failure".to_string(),
        "middle cause".to_string(),
        "root cause".to_string(),
    ];
    assert_eq!(
        error_chain_fmt(&chain),
        "top failure\n\nCaused by:\n\tmiddle causeCaused by:\n\troot cause"
    );
}

#[test]
fn debug_message_renders_the_whole_chain() {
    let e = SubscribeError::StoreTokenError(StoreTokenError("row missing".to_string()));
    assert_eq!(
        e.debug_message(),
        "failed to store the confirmation token for a new subscriber\n\n\
         Caused by:\n\tA database error was encountered while trying to store a subscription token\
         Caused by:\n\trow missing"
    );
}

#[test]
fn string_failure_becomes_a_validation_error() {
    let e = SubscribeError::from("oops".to_string());
    assert!(matches!(e, SubscribeError::ValidationError(m) if m == "oops"));
}

#[test]
fn token_store_failure_keeps_its_variant() {
    let e = SubscribeError::from(StoreTokenError("lost".to_string()));
    assert!(matches!(e, SubscribeError::StoreTokenError(_)));
    assert_eq!(e.status_code(), 500);
}
