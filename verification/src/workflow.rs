use vstd::prelude::*;

use crate::credentials::CredentialStore;
use crate::errors::ForumError;
use crate::hashing::credential_seq;
use crate::models::{Comment, NewComment, NewPost, NewUser, Post, User};
use crate::repository::ContentRepository;
use crate::session::{resolve, token_valid, SessionAuthority, Token};

verus! {

/// The request-handling core: resolves the acting user from a session,
/// validates input, and invokes the account store or the content
/// repository, as one resolve-then-act path per action.
pub struct Forum {
    pub credentials: CredentialStore,
    pub content: ContentRepository,
    pub sessions: SessionAuthority,
}

impl Forum {
    /// The combined invariant: the account store is well-formed and all
    /// stored content references into it hold.
    pub open spec fn wf(&self) -> bool {
        &&& self.credentials.wf()
        &&& self.content.wf(&self.credentials)
    }

    /// An empty site whose session tokens are signed with `key`.
    pub fn new(key: u64) -> (f: Forum)
        ensures
            f.wf(),
            f.credentials.records().len() == 0,
            f.content.posts@.len() == 0,
            f.content.comments@.len() == 0,
            f.sessions.key == key,
    {
        Forum {
            credentials: CredentialStore::new(),
            content: ContentRepository::new(),
            sessions: SessionAuthority::new(key),
        }
    }

    /// Creates an account; the signup action. Content and sessions are
    /// untouched, and the store changes exactly as
    /// `CredentialStore::register` says.
    pub fn register(&mut self, data: NewUser) -> (r: Result<User, ForumError>)
        requires
            old(self).wf(),
            old(self).credentials.records().len() < 0x7fff_ffff,
        ensures
            final(self).wf(),
            final(self).content == old(self).content,
            final(self).sessions == old(self).sessions,
            (r is Ok) <==> !old(self).credentials.has_username(data.username@),
            r matches Ok(u) ==> {
                &&& final(self).credentials.records() == old(self).credentials.records().push(u)
                &&& u.id as int == old(self).credentials.records().len() + 1
                &&& u.username == data.username
                &&& u.email == data.email
                &&& u.password@ == credential_seq(data.password@)
            },
            r is Err ==> final(self).credentials == old(self).credentials && r == Err::<
                User,
                ForumError,
            >(ForumError::DuplicateUsername),
    {
        let r = self.credentials.register(data);
        proof {
            self.content.lemma_wf_grows(&old(self).credentials, &self.credentials);
        }
        r
    }

    /// Checks a login and, on success, starts a session: the returned
    /// token resolves to the given username. On failure no session is
    /// started and the store's error passes through.
    pub fn login(&self, username: &String, password: &String) -> (r: Result<Token, ForumError>)
        requires
            self.wf(),
        ensures
            (r is Ok) <==> (self.credentials.has_username(username@)
                && self.credentials.user_named(username@).password@ == credential_seq(password@)),
            r matches Ok(t) ==> t.username@ == username@ && token_valid(self.sessions.key, t)
                && resolve(self.sessions.key, Some(t)) == Some(username@),
            !self.credentials.has_username(username@) ==> r == Err::<Token, ForumError>(
                ForumError::NotFound,
            ),
            self.credentials.has_username(username@) && self.credentials.user_named(
                username@,
            ).password@ != credential_seq(password@) ==> r == Err::<Token, ForumError>(
                ForumError::InvalidCredential,
            ),
    {
        match self.credentials.verify(username, password) {
            Ok(u) => Ok(self.sessions.start_session(u.username)),
            Err(e) => Err(e),
        }
    }

    /// Ends a session; the client-held token is cleared and resolves to
    /// nobody afterwards.
    pub fn logout(&self, session: &mut Option<Token>)
        ensures
            *final(session) is None,
            resolve(self.sessions.key, *final(session)) is None,
    {
        self.sessions.end_session(session);
    }

    /// Who a client-held session acts as, if anyone.
    pub fn current_user(&self, session: &Option<Token>) -> (r: Option<String>)
        ensures
            (r is None) <==> (resolve(self.sessions.key, *session) is None),
            r matches Some(u) ==> resolve(self.sessions.key, *session) == Some(u@),
    {
        self.sessions.current_user(session)
    }

    /// Submits a post. Resolves the acting user first: an anonymous
    /// session fails with `Unauthenticated`, a session naming a missing
    /// account with `UnknownAuthor`; otherwise the post is stored under
    /// the resolved account, stamped with the current time. On failure
    /// nothing changes.
    pub fn submit_post(&mut self, session: &Option<Token>, title: String, link: String) -> (r:
        Result<Post, ForumError>)
        requires
            old(self).wf(),
            old(self).content.posts@.len() < 0x7fff_ffff,
            title@.len() > 0,
        ensures
            final(self).wf(),
            final(self).credentials == old(self).credentials,
            final(self).sessions == old(self).sessions,
            final(self).content.comments@ == old(self).content.comments@,
            (r is Ok) <==> (resolve(old(self).sessions.key, *session) matches Some(name)
                && old(self).credentials.has_username(name)),
            r matches Ok(p) ==> {
                &&& final(self).content.posts@ == old(self).content.posts@.push(p)
                &&& p.id as int == old(self).content.posts@.len() + 1
                &&& p.title == title
                &&& p.link == Some(link)
                &&& p.author as int == old(self).credentials.user_named(
                    resolve(old(self).sessions.key, *session).unwrap(),
                ).id as int
                &&& 0 <= p.created_at
            },
            r is Err ==> *final(self) == *old(self),
            resolve(old(self).sessions.key, *session) is None ==> r == Err::<Post, ForumError>(
                ForumError::Unauthenticated,
            ),
            (resolve(old(self).sessions.key, *session) matches Some(name) && !old(
                self,
            ).credentials.has_username(name)) ==> r == Err::<Post, ForumError>(
                ForumError::UnknownAuthor,
            ),
    {
        match self.sessions.current_user(session) {
            None => Err(ForumError::Unauthenticated),
            Some(name) => match self.credentials.find_by_username(&name) {
                None => Err(ForumError::UnknownAuthor),
                Some(u) => {
                    let new_post = NewPost::from_post_form(title, link, u.id);
                    self.content.create_post(&self.credentials, new_post)
                },
            },
        }
    }

    /// Submits a comment on a post, optionally nested under a parent
    /// comment of the same post. Resolves the acting user exactly as
    /// `submit_post` does, then delegates the reference checks to the
    /// repository. On failure nothing changes.
    pub fn submit_comment(
        &mut self,
        session: &Option<Token>,
        post_id: i32,
        text: String,
        parent_comment_id: Option<i32>,
    ) -> (r: Result<Comment, ForumError>)
        requires
            old(self).wf(),
            old(self).content.comments@.len() < 0x7fff_ffff,
            text@.len() > 0,
        ensures
            final(self).wf(),
            final(self).credentials == old(self).credentials,
            final(self).sessions == old(self).sessions,
            final(self).content.posts@ == old(self).content.posts@,
            (r is Ok) <==> (resolve(old(self).sessions.key, *session) matches Some(name)
                && old(self).credentials.has_username(name) && old(self).content.has_post_id(
                post_id as int,
            ) && old(self).content.parent_ok(post_id, parent_comment_id)),
            r matches Ok(c) ==> {
                &&& final(self).content.comments@ == old(self).content.comments@.push(c)
                &&& c.id as int == old(self).content.comments@.len() + 1
                &&& c.comment == text
                &&& c.post_id == post_id
                &&& c.user_id as int == old(self).credentials.user_named(
                    resolve(old(self).sessions.key, *session).unwrap(),
                ).id as int
                &&& c.parent_comment_id == parent_comment_id
                &&& 0 <= c.created_at
                &&& final(self).content.comments_of(post_id) == old(self).content.comments_of(
                    post_id,
                ).push(c)
                &&& forall|q: i32|
                    q != post_id ==> final(self).content.comments_of(q) == old(
                        self,
                    ).content.comments_of(q)
            },
            r is Err ==> *final(self) == *old(self),
            resolve(old(self).sessions.key, *session) is None ==> r == Err::<Comment, ForumError>(
                ForumError::Unauthenticated,
            ),
            (resolve(old(self).sessions.key, *session) matches Some(name) && !old(
                self,
            ).credentials.has_username(name)) ==> r == Err::<Comment, ForumError>(
                ForumError::UnknownAuthor,
            ),
            (resolve(old(self).sessions.key, *session) matches Some(name) && old(
                self,
            ).credentials.has_username(name) && !old(self).content.has_post_id(post_id as int))
                ==> r == Err::<Comment, ForumError>(ForumError::UnknownPost),
            (resolve(old(self).sessions.key, *session) matches Some(name) && old(
                self,
            ).credentials.has_username(name) && old(self).content.has_post_id(post_id as int)
                && !old(self).content.parent_ok(post_id, parent_comment_id)) ==> r == Err::<
                Comment,
                ForumError,
            >(ForumError::InvalidParent),
    {
        match self.sessions.current_user(session) {
            None => Err(ForumError::Unauthenticated),
            Some(name) => match self.credentials.find_by_username(&name) {
                None => Err(ForumError::UnknownAuthor),
                Some(u) => {
                    let new_comment = NewComment::new(text, post_id, u.id, parent_comment_id);
                    self.content.create_comment(&self.credentials, new_comment)
                },
            },
        }
    }

    /// The front page: every post joined to its author, in insertion
    /// order.
    pub fn posts_with_authors(&self) -> (r: Vec<(Post, User)>)
        requires
            self.wf(),
        ensures
            r@.len() == self.content.posts@.len(),
            forall|i: int|
                0 <= i < r@.len() ==> (#[trigger] r@[i]).0 == self.content.posts@[i] && r@[i].1
                    == self.credentials.user_with_id(self.content.posts@[i].author as int),
    {
        self.content.list_posts_with_authors(&self.credentials)
    }

    /// One post's page: the post, its author, and its comments joined
    /// to theirs. Fails with `NotFound` exactly when the post does not
    /// exist.
    pub fn post_page(&self, post_id: i32) -> (r: Result<
        (Post, User, Vec<(Comment, User)>),
        ForumError,
    >)
        requires
            self.wf(),
        ensures
            (r is Ok) <==> self.content.has_post_id(post_id as int),
            r matches Ok(page) ==> {
                &&& page.0 == self.content.post_with_id(post_id as int)
                &&& page.1 == self.credentials.user_with_id(page.0.author as int)
                &&& page.2@.len() == self.content.comments_of(post_id).len()
                &&& forall|i: int|
                    0 <= i < page.2@.len() ==> (#[trigger] page.2@[i]).0
                        == self.content.comments_of(post_id)[i] && page.2@[i].1
                        == self.credentials.user_with_id(
                        self.content.comments_of(post_id)[i].user_id as int,
                    )
            },
            r is Err ==> r == Err::<(Post, User, Vec<(Comment, User)>), ForumError>(
                ForumError::NotFound,
            ),
    {
        match self.content.get_post(post_id) {
            Err(e) => Err(e),
            Ok(post) => {
                proof {
                    assert(self.content.posts@[post_id - 1].id == post_id);
                }
                let author = self.credentials.user_by_id(post.author);
                let comments = self.content.list_comments_for_post(&self.credentials, post_id);
                Ok((post, author, comments))
            },
        }
    }
}

} // verus!
