use hacker_clone::session::{SessionAuthority, Token};
use hacker_clone::workflow::Forum;

#[test]
fn issued_token_resolves_to_its_username_and_clearing_makes_it_anonymous() {
    let authority = SessionAuthority::new(7);
    let token = authority.start_session("alice".to_string());
    let mut session = Some(token);
    assert_eq!(authority.current_user(&session), Some("alice".to_string()));

    authority.end_session(&mut session);
    assert!(session.is_none());
    assert_eq!(authority.current_user(&session), None);
}

#[test]
fn swapping_the_username_under_a_tag_is_anonymous() {
    let authority = SessionAuthority::new(7);
    let token = authority.start_session("alice".to_string());
    let forged = Token {
        username: "mallory".to_string(),
        tag: token.tag,
    };
    assert_eq!(authority.current_user(&Some(forged)), None);
}

#[test]
fn tokens_from_another_key_do_not_resolve() {
    let issuing = SessionAuthority::new(7);
    let other = SessionAuthority::new(8);
    let token = issuing.start_session("alice".to_string());
    assert_eq!(other.current_user(&Some(token)), None);
}

#[test]
fn logout_clears_the_client_session() {
    let forum = Forum::new(7);
    let token = forum.sessions.start_session("alice".to_string());
    let mut session = Some(token);
    forum.logout(&mut session);
    assert!(session.is_none());
    assert_eq!(forum.current_user(&session), None);
}
