use vstd::prelude::*;

use crate::clock;

verus! {

/// A registered account.
///
/// `password` holds the derived credential (see
/// `hashing::credential_seq`), never the raw password. Identifiers are
/// assigned at creation time and never change; usernames are unique and
/// compared exactly, with no normalization.
#[derive(Debug, PartialEq)]
pub struct User {
    pub id: i32,
    pub username: String,
    pub email: String,
    pub password: String,
}

/// The signup payload: a requested username, an email address, and the
/// raw password that `register` turns into a stored credential.
#[derive(Debug, PartialEq)]
pub struct NewUser {
    pub username: String,
    pub email: String,
    pub password: String,
}

/// The login payload.
#[derive(Debug, PartialEq)]
pub struct LoginUser {
    pub username: String,
    pub password: String,
}

/// A submitted content item. Immutable once stored; `author` references
/// the owning `User` by identifier, and `created_at` is whole seconds
/// since the Unix epoch, assigned server-side at submission time.
#[derive(Debug, PartialEq)]
pub struct Post {
    pub id: i32,
    pub title: String,
    pub link: Option<String>,
    pub author: i32,
    pub created_at: i64,
}

/// A post ready to be stored: everything but the identifier, which the
/// repository assigns.
#[derive(Debug, PartialEq)]
pub struct NewPost {
    pub title: String,
    pub link: String,
    pub author: i32,
    pub created_at: i64,
}

/// A reply attached to exactly one post, optionally nested under another
/// comment on the same post. Immutable once stored.
#[derive(Debug, PartialEq)]
pub struct Comment {
    pub id: i32,
    pub comment: String,
    pub post_id: i32,
    pub user_id: i32,
    pub parent_comment_id: Option<i32>,
    pub created_at: i64,
}

/// A comment ready to be stored: everything but the identifier.
#[derive(Debug, PartialEq)]
pub struct NewComment {
    pub comment: String,
    pub post_id: i32,
    pub user_id: i32,
    pub parent_comment_id: Option<i32>,
    pub created_at: i64,
}

impl User {
    /// An equal copy of this record.
    pub fn duplicate(&self) -> (r: User)
        ensures
            r == *self,
    {
        User {
            id: self.id,
            username: self.username.clone(),
            email: self.email.clone(),
            password: self.password.clone(),
        }
    }
}

impl Post {
    /// An equal copy of this record.
    pub fn duplicate(&self) -> (r: Post)
        ensures
            r == *self,
    {
        Post {
            id: self.id,
            title: self.title.clone(),
            link: match &self.link {
                Some(l) => Some(l.clone()),
                None => None,
            },
            author: self.author,
            created_at: self.created_at,
        }
    }
}

impl Comment {
    /// An equal copy of this record.
    pub fn duplicate(&self) -> (r: Comment)
        ensures
            r == *self,
    {
        Comment {
            id: self.id,
            comment: self.comment.clone(),
            post_id: self.post_id,
            user_id: self.user_id,
            parent_comment_id: self.parent_comment_id,
            created_at: self.created_at,
        }
    }
}

impl NewPost {
    /// Builds the record for a submitted form, stamping it with the
    /// current time.
    pub fn from_post_form(title: String, link: String, author: i32) -> (p: NewPost)
        ensures
            p.title == title,
            p.link == link,
            p.author == author,
            0 <= p.created_at,
    {
        NewPost { title, link, author, created_at: clock::now_timestamp() }
    }
}

impl NewComment {
    /// Builds the record for a submitted comment, stamping it with the
    /// current time.
    pub fn new(
        comment: String,
        post_id: i32,
        user_id: i32,
        parent_comment_id: Option<i32>,
    ) -> (c: NewComment)
        ensures
            c.comment == comment,
            c.post_id == post_id,
            c.user_id == user_id,
            c.parent_comment_id == parent_comment_id,
            0 <= c.created_at,
    {
        NewComment { comment, post_id, user_id, parent_comment_id, created_at: clock::now_timestamp() }
    }
}

} // verus!
