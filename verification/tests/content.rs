use hacker_clone::errors::ForumError;
use hacker_clone::models::{NewComment, NewPost, NewUser};
use hacker_clone::workflow::Forum;

fn forum_with_alice() -> Forum {
    let mut forum = Forum::new(3);
    forum
        .register(NewUser {
            username: "alice".to_string(),
            email: "alice@example.org".to_string(),
            password: "correct".to_string(),
        })
        .unwrap();
    forum
}

fn alice_session(forum: &Forum) -> Option<hacker_clone::session::Token> {
    Some(forum.sessions.start_session("alice".to_string()))
}

#[test]
fn anonymous_submission_is_rejected_and_stores_nothing() {
    let mut forum = forum_with_alice();
    let r = forum.submit_post(&None, "A title".to_string(), "https://example.org".to_string());
    assert_eq!(r, Err(ForumError::Unauthenticated));
    assert_eq!(forum.content.posts.len(), 0);

    let c = forum.submit_comment(&None, 1, "hello".to_string(), None);
    assert_eq!(c, Err(ForumError::Unauthenticated));
    assert_eq!(forum.content.comments.len(), 0);
}

#[test]
fn stale_session_for_missing_account_is_unknown_author() {
    let mut forum = forum_with_alice();
    let ghost_session = Some(forum.sessions.start_session("ghost".to_string()));
    let r = forum.submit_post(
        &ghost_session,
        "A title".to_string(),
        "https://example.org".to_string(),
    );
    assert_eq!(r, Err(ForumError::UnknownAuthor));
    assert_eq!(forum.content.posts.len(), 0);
}

#[test]
fn created_post_is_fetched_back_identical() {
    let mut forum = forum_with_alice();
    let stored = forum
        .content
        .create_post(
            &forum.credentials,
            NewPost {
                title: "A title".to_string(),
                link: "https://example.org".to_string(),
                author: 1,
                created_at: 1234,
            },
        )
        .unwrap();
    let fetched = forum.content.get_post(stored.id).unwrap();
    assert_eq!(fetched, stored);
    assert_eq!(fetched.title, "A title");
    assert_eq!(fetched.link, Some("https://example.org".to_string()));
    assert_eq!(fetched.author, 1);
    assert_eq!(fetched.created_at, 1234);
}

#[test]
fn get_post_with_unknown_identifier_is_not_found() {
    let forum = forum_with_alice();
    assert_eq!(forum.content.get_post(1), Err(ForumError::NotFound));
    assert_eq!(forum.content.get_post(0), Err(ForumError::NotFound));
    assert_eq!(forum.content.get_post(-5), Err(ForumError::NotFound));
}

#[test]
fn create_post_for_missing_author_is_unknown_author() {
    let mut forum = forum_with_alice();
    let r = forum.content.create_post(
        &forum.credentials,
        NewPost {
            title: "A title".to_string(),
            link: "https://example.org".to_string(),
            author: 2,
            created_at: 0,
        },
    );
    assert_eq!(r, Err(ForumError::UnknownAuthor));
    assert_eq!(forum.content.posts.len(), 0);
}

#[test]
fn comment_on_missing_post_is_unknown_post() {
    let mut forum = forum_with_alice();
    let session = alice_session(&forum);
    let r = forum.submit_comment(&session, 1, "hello".to_string(), None);
    assert_eq!(r, Err(ForumError::UnknownPost));
}

#[test]
fn parent_from_another_post_is_invalid_parent() {
    let mut forum = forum_with_alice();
    let session = alice_session(&forum);
    let p = forum
        .submit_post(&session, "First".to_string(), "https://a.example".to_string())
        .unwrap();
    let q = forum
        .submit_post(&session, "Second".to_string(), "https://b.example".to_string())
        .unwrap();
    let on_q = forum
        .submit_comment(&session, q.id, "on the second post".to_string(), None)
        .unwrap();

    let r = forum.submit_comment(&session, p.id, "nested".to_string(), Some(on_q.id));
    assert_eq!(r, Err(ForumError::InvalidParent));
    assert_eq!(forum.content.comments.len(), 1);

    // A parent that does not exist at all does not belong to the post either.
    let r = forum.submit_comment(&session, p.id, "nested".to_string(), Some(99));
    assert_eq!(r, Err(ForumError::InvalidParent));
}

#[test]
fn listing_returns_exactly_the_posts_comments_with_their_authors() {
    let mut forum = forum_with_alice();
    forum
        .register(NewUser {
            username: "bob".to_string(),
            email: "bob@example.org".to_string(),
            password: "hunter2".to_string(),
        })
        .unwrap();
    let alice = alice_session(&forum);
    let bob = Some(forum.sessions.start_session("bob".to_string()));

    let p = forum
        .submit_post(&alice, "First".to_string(), "https://a.example".to_string())
        .unwrap();
    let q = forum
        .submit_post(&bob, "Second".to_string(), "https://b.example".to_string())
        .unwrap();

    let c1 = forum
        .submit_comment(&alice, p.id, "first on p".to_string(), None)
        .unwrap();
    forum
        .submit_comment(&bob, q.id, "only one on q".to_string(), None)
        .unwrap();
    let c3 = forum
        .submit_comment(&bob, p.id, "nested on p".to_string(), Some(c1.id))
        .unwrap();

    let listed = forum
        .content
        .list_comments_for_post(&forum.credentials, p.id);
    assert_eq!(listed.len(), 2);
    assert_eq!(listed[0].0, c1);
    assert_eq!(listed[0].1.username, "alice");
    assert_eq!(listed[1].0, c3);
    assert_eq!(listed[1].1.username, "bob");

    let page = forum.post_page(q.id).unwrap();
    assert_eq!(page.0, q);
    assert_eq!(page.1.username, "bob");
    assert_eq!(page.2.len(), 1);
    assert_eq!(page.2[0].0.comment, "only one on q");
    assert_eq!(page.2[0].1.username, "bob");
}

#[test]
fn a_hundred_comments_all_land_with_distinct_identifiers() {
    let mut forum = forum_with_alice();
    let session = alice_session(&forum);
    let p = forum
        .submit_post(&session, "Busy".to_string(), "https://example.org".to_string())
        .unwrap();

    for i in 0..100 {
        let r = forum.submit_comment(&session, p.id, format!("comment {}", i), None);
        assert!(r.is_ok());
    }

    let listed = forum
        .content
        .list_comments_for_post(&forum.credentials, p.id);
    assert_eq!(listed.len(), 100);
    let mut seen: Vec<i32> = listed.iter().map(|pair| pair.0.id).collect();
    seen.sort();
    seen.dedup();
    assert_eq!(seen.len(), 100);
}

#[test]
fn front_page_joins_posts_to_their_authors_in_insertion_order() {
    let mut forum = forum_with_alice();
    forum
        .register(NewUser {
            username: "bob".to_string(),
            email: "bob@example.org".to_string(),
            password: "hunter2".to_string(),
        })
        .unwrap();
    let alice = alice_session(&forum);
    let bob = Some(forum.sessions.start_session("bob".to_string()));

    forum
        .submit_post(&alice, "First".to_string(), "https://a.example".to_string())
        .unwrap();
    forum
        .submit_post(&bob, "Second".to_string(), "https://b.example".to_string())
        .unwrap();

    let all = forum.posts_with_authors();
    assert_eq!(all.len(), 2);
    assert_eq!(all[0].0.title, "First");
    assert_eq!(all[0].1.username, "alice");
    assert_eq!(all[1].0.title, "Second");
    assert_eq!(all[1].1.username, "bob");
}

#[test]
fn post_page_for_missing_post_is_not_found() {
    let forum = forum_with_alice();
    let r = forum.post_page(7);
    assert!(matches!(r, Err(ForumError::NotFound)));
}

#[test]
fn submitted_posts_and_comments_carry_a_clock_stamp() {
    let mut forum = forum_with_alice();
    let session = alice_session(&forum);
    let p = forum
        .submit_post(&session, "Stamped".to_string(), "https://example.org".to_string())
        .unwrap();
    assert!(p.created_at >= 0);
    let c = forum
        .submit_comment(&session, p.id, "stamped too".to_string(), None)
        .unwrap();
    assert!(c.created_at >= 0);
    assert_eq!(forum.content.posts[0].created_at, p.created_at);
}

#[test]
fn form_builders_copy_their_fields() {
    let p = hacker_clone::models::NewPost::from_post_form(
        "A title".to_string(),
        "https://example.org".to_string(),
        4,
    );
    assert_eq!(p.title, "A title");
    assert_eq!(p.link, "https://example.org");
    assert_eq!(p.author, 4);
    assert!(p.created_at >= 0);

    let c = NewComment::new("text".to_string(), 2, 3, Some(1));
    assert_eq!(c.comment, "text");
    assert_eq!(c.post_id, 2);
    assert_eq!(c.user_id, 3);
    assert_eq!(c.parent_comment_id, Some(1));
    assert!(c.created_at >= 0);
}
