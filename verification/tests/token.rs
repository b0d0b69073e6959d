use newsletter::token::generate_subscription_token;

#[test]
fn token_has_25_characters() {
    let token = generate_subscription_token();
    assert_eq!(token.chars().count(), 25);
}

#[test]
fn token_is_alphanumeric() {
    let token = generate_subscription_token();
    assert!(token.chars().all(|c| c.is_ascii_alphanumeric()));
}

#[test]
fn tokens_are_unguessable_in_practice() {
    let first = generate_subscription_token();
    let second = generate_subscription_token();
    assert_ne!(first, second);
}
