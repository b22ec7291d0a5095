use hacker_clone::errors::ForumError;
use hacker_clone::hashing::derive_credential;
use hacker_clone::models::NewUser;
use hacker_clone::workflow::Forum;

fn signup(username: &str, email: &str, password: &str) -> NewUser {
    NewUser {
        username: username.to_string(),
        email: email.to_string(),
        password: password.to_string(),
    }
}

#[test]
fn duplicate_username_rejected_and_first_account_kept() {
    let mut forum = Forum::new(11);
    let first = forum
        .register(signup("alice", "alice@example.org", "correct"))
        .unwrap();
    assert_eq!(first.id, 1);
    assert_eq!(first.username, "alice");
    assert_eq!(first.email, "alice@example.org");

    let second = forum.register(signup("alice", "other@example.org", "different"));
    assert_eq!(second, Err(ForumError::DuplicateUsername));

    // The store retains only the first record.
    assert_eq!(forum.credentials.users.len(), 1);
    assert_eq!(forum.credentials.users[0].email, "alice@example.org");
    assert!(forum
        .credentials
        .verify(&"alice".to_string(), &"correct".to_string())
        .is_ok());
}

#[test]
fn verify_with_wrong_password_is_invalid_credential() {
    let mut forum = Forum::new(11);
    forum
        .register(signup("alice", "alice@example.org", "correct"))
        .unwrap();
    let r = forum
        .credentials
        .verify(&"alice".to_string(), &"wrong".to_string());
    assert_eq!(r, Err(ForumError::InvalidCredential));
}

#[test]
fn verify_unknown_user_is_not_found() {
    let mut forum = Forum::new(11);
    forum
        .register(signup("alice", "alice@example.org", "correct"))
        .unwrap();
    let r = forum
        .credentials
        .verify(&"bob".to_string(), &"anything".to_string());
    assert_eq!(r, Err(ForumError::NotFound));
}

#[test]
fn stored_credential_is_derived_not_raw() {
    let mut forum = Forum::new(11);
    let user = forum
        .register(signup("alice", "alice@example.org", "correct"))
        .unwrap();
    assert_ne!(user.password, "correct");
    assert_eq!(user.password, derive_credential("correct"));
    assert_eq!(user.password.len(), 8);
}

#[test]
fn login_issues_token_that_resolves_and_failures_start_no_session() {
    let forum_key = 42;
    let mut forum = Forum::new(forum_key);
    forum
        .register(signup("alice", "alice@example.org", "correct"))
        .unwrap();

    let wrong = forum.login(&"alice".to_string(), &"wrong".to_string());
    assert_eq!(wrong, Err(ForumError::InvalidCredential));
    let missing = forum.login(&"bob".to_string(), &"correct".to_string());
    assert_eq!(missing, Err(ForumError::NotFound));

    let token = forum
        .login(&"alice".to_string(), &"correct".to_string())
        .unwrap();
    assert_eq!(token.username, "alice");
    let session = Some(token);
    assert_eq!(forum.current_user(&session), Some("alice".to_string()));
}
