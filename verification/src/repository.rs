use vstd::prelude::*;

use crate::credentials::CredentialStore;
use crate::errors::ForumError;
use crate::models::{Comment, NewComment, NewPost, Post, User};

verus! {

/// Owns the posts and comments, enforces their references (comment to
/// post, content to author, comment to parent comment), and answers the
/// queries the pages are built from. Content is immutable once stored.
pub struct ContentRepository {
    pub posts: Vec<Post>,
    pub comments: Vec<Comment>,
}

/// The predicate selecting the comments of one post.
pub open spec fn on_post(post_id: i32) -> spec_fn(Comment) -> bool {
    |c: Comment| c.post_id == post_id
}

impl ContentRepository {
    /// Whether an identifier references a stored post.
    pub open spec fn has_post_id(&self, id: int) -> bool {
        1 <= id <= self.posts@.len()
    }

    /// The post with this identifier; meaningful when `has_post_id`.
    pub open spec fn post_with_id(&self, id: int) -> Post {
        self.posts@[id - 1]
    }

    /// Whether an identifier references a stored comment.
    pub open spec fn has_comment_id(&self, id: int) -> bool {
        1 <= id <= self.comments@.len()
    }

    /// The comment with this identifier; meaningful when `has_comment_id`.
    pub open spec fn comment_with_id(&self, id: int) -> Comment {
        self.comments@[id - 1]
    }

    /// The comments belonging to one post, oldest first.
    pub open spec fn comments_of(&self, post_id: i32) -> Seq<Comment> {
        self.comments@.filter(on_post(post_id))
    }

    /// Whether a prospective parent reference is in order: absent, or
    /// naming a stored comment on the same post.
    pub open spec fn parent_ok(&self, post_id: i32, parent: Option<i32>) -> bool {
        match parent {
            None => true,
            Some(p) => self.has_comment_id(p as int) && self.comment_with_id(p as int).post_id
                == post_id,
        }
    }

    /// The references the stored comment at position `i` must satisfy:
    /// its post and author exist, and its parent, if any, is an earlier
    /// comment on the same post — so parent links form a forest per post.
    pub open spec fn comment_refs_ok(&self, users: &CredentialStore, i: int) -> bool {
        let c = self.comments@[i];
        &&& users.has_user_id(c.user_id as int)
        &&& self.has_post_id(c.post_id as int)
        &&& match c.parent_comment_id {
            None => true,
            Some(p) => 1 <= p <= i && self.comments@[p - 1].post_id == c.post_id,
        }
    }

    /// Well-formedness against the account store: identifiers are
    /// assigned in order starting at 1, titles and comment texts are
    /// non-empty, authors exist, and every comment's references hold.
    pub open spec fn wf(&self, users: &CredentialStore) -> bool {
        &&& self.posts@.len() <= 0x7fff_ffff
        &&& self.comments@.len() <= 0x7fff_ffff
        &&& forall|i: int|
            0 <= i < self.posts@.len() ==> (#[trigger] self.posts@[i]).id == i + 1
        &&& forall|i: int|
            0 <= i < self.posts@.len() ==> (#[trigger] self.posts@[i]).title@.len() > 0
        &&& forall|i: int|
            0 <= i < self.posts@.len() ==> users.has_user_id(
                (#[trigger] self.posts@[i]).author as int,
            )
        &&& forall|i: int|
            0 <= i < self.comments@.len() ==> (#[trigger] self.comments@[i]).id == i + 1
        &&& forall|i: int|
            0 <= i < self.comments@.len() ==> (#[trigger] self.comments@[i]).comment@.len() > 0
        &&& forall|i: int| 0 <= i < self.comments@.len() ==> self.comment_refs_ok(users, i)
    }

    /// An empty repository, well-formed against any account store.
    pub fn new() -> (r: ContentRepository)
        ensures
            forall|users: &CredentialStore| r.wf(users),
            r.posts@.len() == 0,
            r.comments@.len() == 0,
    {
        ContentRepository { posts: Vec::new(), comments: Vec::new() }
    }

    /// Growing the account store cannot break well-formedness: every
    /// reference into it stays in range.
    pub proof fn lemma_wf_grows(&self, users_old: &CredentialStore, users_new: &CredentialStore)
        requires
            self.wf(users_old),
            users_old.records().len() <= users_new.records().len(),
        ensures
            self.wf(users_new),
    {
        assert forall|i: int| 0 <= i < self.comments@.len() implies self.comment_refs_ok(
            users_new,
            i,
        ) by {
            assert(self.comment_refs_ok(users_old, i));
        }
    }

    /// Stores the post described by `new_post` and returns the stored
    /// record, with its assigned identifier. Fails with `UnknownAuthor`,
    /// changing nothing, exactly when the author does not exist.
    pub fn create_post(&mut self, users: &CredentialStore, new_post: NewPost) -> (r: Result<
        Post,
        ForumError,
    >)
        requires
            old(self).wf(users),
            old(self).posts@.len() < 0x7fff_ffff,
            new_post.title@.len() > 0,
        ensures
            final(self).wf(users),
            final(self).comments@ == old(self).comments@,
            (r is Ok) <==> users.has_user_id(new_post.author as int),
            r matches Ok(p) ==> {
                &&& final(self).posts@ == old(self).posts@.push(p)
                &&& p.id as int == old(self).posts@.len() + 1
                &&& p.title == new_post.title
                &&& p.link == Some(new_post.link)
                &&& p.author == new_post.author
                &&& p.created_at == new_post.created_at
            },
            r is Err ==> *final(self) == *old(self) && r == Err::<Post, ForumError>(
                ForumError::UnknownAuthor,
            ),
    {
        if !users.user_exists(new_post.author) {
            return Err(ForumError::UnknownAuthor);
        }
        let post = Post {
            id: (self.posts.len() + 1) as i32,
            title: new_post.title,
            link: Some(new_post.link),
            author: new_post.author,
            created_at: new_post.created_at,
        };
        self.posts.push(post.duplicate());
        proof {
            let s = self.posts@;
            assert forall|i: int| 0 <= i < s.len() implies (#[trigger] s[i]).id == i + 1 && (
            #[trigger] s[i]).title@.len() > 0 && users.has_user_id((#[trigger] s[i]).author as int)
                by {
                if i < s.len() - 1 {
                    assert(s[i] == old(self).posts@[i]);
                }
            }
            assert forall|i: int| 0 <= i < self.comments@.len() implies self.comment_refs_ok(
                users,
                i,
            ) by {
                assert(old(self).comment_refs_ok(users, i));
            }
        }
        Ok(post)
    }

    /// Fetches a post by identifier; `NotFound` exactly when no post
    /// has it.
    pub fn get_post(&self, id: i32) -> (r: Result<Post, ForumError>)
        ensures
            (r is Ok) <==> self.has_post_id(id as int),
            r matches Ok(p) ==> p == self.post_with_id(id as int),
            r is Err ==> r == Err::<Post, ForumError>(ForumError::NotFound),
    {
        if 1 <= id && id as usize <= self.posts.len() {
            Ok(self.posts[(id - 1) as usize].duplicate())
        } else {
            Err(ForumError::NotFound)
        }
    }

    /// The join of every post to its author, in insertion order.
    pub fn list_posts_with_authors(&self, users: &CredentialStore) -> (r: Vec<(Post, User)>)
        requires
            self.wf(users),
            users.wf(),
        ensures
            r@.len() == self.posts@.len(),
            forall|i: int|
                0 <= i < r@.len() ==> (#[trigger] r@[i]).0 == self.posts@[i] && r@[i].1
                    == users.user_with_id(self.posts@[i].author as int),
    {
        let mut r: Vec<(Post, User)> = Vec::new();
        let n = self.posts.len();
        let mut i: usize = 0;
        while i < n
            invariant
                i <= n,
                n == self.posts@.len(),
                self.wf(users),
                users.wf(),
                r@.len() == i,
                forall|j: int|
                    0 <= j < i ==> (#[trigger] r@[j]).0 == self.posts@[j] && r@[j].1
                        == users.user_with_id(self.posts@[j].author as int),
            decreases n - i,
        {
            let author = users.user_by_id(self.posts[i].author);
            r.push((self.posts[i].duplicate(), author));
            i = i + 1;
        }
        r
    }

    /// Stores the comment described by `new_comment` and returns the
    /// stored record. Checks references in order: the post must exist
    /// (`UnknownPost`), the author must exist (`UnknownAuthor`), and a
    /// parent, if supplied, must be a comment of that same post
    /// (`InvalidParent`). On failure nothing changes.
    pub fn create_comment(&mut self, users: &CredentialStore, new_comment: NewComment) -> (r:
        Result<Comment, ForumError>)
        requires
            old(self).wf(users),
            old(self).comments@.len() < 0x7fff_ffff,
            new_comment.comment@.len() > 0,
        ensures
            final(self).wf(users),
            final(self).posts@ == old(self).posts@,
            (r is Ok) <==> (old(self).has_post_id(new_comment.post_id as int)
                && users.has_user_id(new_comment.user_id as int) && old(self).parent_ok(
                new_comment.post_id,
                new_comment.parent_comment_id,
            )),
            r matches Ok(c) ==> {
                &&& final(self).comments@ == old(self).comments@.push(c)
                &&& c.id as int == old(self).comments@.len() + 1
                &&& c.comment == new_comment.comment
                &&& c.post_id == new_comment.post_id
                &&& c.user_id == new_comment.user_id
                &&& c.parent_comment_id == new_comment.parent_comment_id
                &&& c.created_at == new_comment.created_at
                &&& final(self).comments_of(new_comment.post_id) == old(self).comments_of(
                    new_comment.post_id,
                ).push(c)
                &&& forall|q: i32|
                    q != new_comment.post_id ==> final(self).comments_of(q) == old(
                        self,
                    ).comments_of(q)
            },
            r is Err ==> *final(self) == *old(self),
            !old(self).has_post_id(new_comment.post_id as int) ==> r == Err::<Comment, ForumError>(
                ForumError::UnknownPost,
            ),
            old(self).has_post_id(new_comment.post_id as int) && !users.has_user_id(
                new_comment.user_id as int,
            ) ==> r == Err::<Comment, ForumError>(ForumError::UnknownAuthor),
            old(self).has_post_id(new_comment.post_id as int) && users.has_user_id(
                new_comment.user_id as int,
            ) && !old(self).parent_ok(new_comment.post_id, new_comment.parent_comment_id) ==> r
                == Err::<Comment, ForumError>(ForumError::InvalidParent),
    {
        if !(1 <= new_comment.post_id && new_comment.post_id as usize <= self.posts.len()) {
            return Err(ForumError::UnknownPost);
        }
        if !users.user_exists(new_comment.user_id) {
            return Err(ForumError::UnknownAuthor);
        }
        match new_comment.parent_comment_id {
            None => {},
            Some(p) => {
                if !(1 <= p && p as usize <= self.comments.len()) {
                    return Err(ForumError::InvalidParent);
                }
                if self.comments[(p - 1) as usize].post_id != new_comment.post_id {
                    return Err(ForumError::InvalidParent);
                }
            },
        }
        let comment = Comment {
            id: (self.comments.len() + 1) as i32,
            comment: new_comment.comment,
            post_id: new_comment.post_id,
            user_id: new_comment.user_id,
            parent_comment_id: new_comment.parent_comment_id,
            created_at: new_comment.created_at,
        };
        proof {
            lemma_comments_of_after_push(self.comments@, comment, comment.post_id);
            assert forall|q: i32| q != comment.post_id implies self.comments@.push(comment).filter(
                on_post(q),
            ) == self.comments@.filter(on_post(q)) by {
                lemma_comments_of_after_push(self.comments@, comment, q);
            }
        }
        self.comments.push(comment.duplicate());
        proof {
            let s = self.comments@;
            assert forall|i: int| 0 <= i < s.len() implies (#[trigger] s[i]).id == i + 1 && (
            #[trigger] s[i]).comment@.len() > 0 by {
                if i < s.len() - 1 {
                    assert(s[i] == old(self).comments@[i]);
                }
            }
            assert forall|i: int| 0 <= i < s.len() implies self.comment_refs_ok(users, i) by {
                if i < s.len() - 1 {
                    assert(old(self).comment_refs_ok(users, i));
                    assert(s[i] == old(self).comments@[i]);
                    match old(self).comments@[i].parent_comment_id {
                        None => {},
                        Some(p) => {
                            assert(s[p - 1] == old(self).comments@[p - 1]);
                        },
                    }
                } else {
                    assert(s[i] == comment);
                    match comment.parent_comment_id {
                        None => {},
                        Some(p) => {
                            assert(s[p - 1] == old(self).comments@[p - 1]);
                        },
                    }
                }
            }
        }
        Ok(comment)
    }

    /// The comments of one post joined to their authors, flat and in
    /// insertion order; callers rebuild the tree from the parent links.
    pub fn list_comments_for_post(&self, users: &CredentialStore, post_id: i32) -> (r: Vec<
        (Comment, User),
    >)
        requires
            self.wf(users),
            users.wf(),
        ensures
            r@.len() == self.comments_of(post_id).len(),
            forall|i: int|
                0 <= i < r@.len() ==> (#[trigger] r@[i]).0 == self.comments_of(post_id)[i]
                    && r@[i].1 == users.user_with_id(self.comments_of(post_id)[i].user_id as int),
    {
        let mut r: Vec<(Comment, User)> = Vec::new();
        let n = self.comments.len();
        let mut i: usize = 0;
        proof {
            assert(self.comments@.subrange(0, 0).filter(on_post(post_id))
                =~= Seq::<Comment>::empty()) by {
                reveal(Seq::filter);
            }
        }
        while i < n
            invariant
                i <= n,
                n == self.comments@.len(),
                self.wf(users),
                users.wf(),
                r@.len() == self.comments@.subrange(0, i as int).filter(on_post(post_id)).len(),
                forall|j: int|
                    0 <= j < r@.len() ==> (#[trigger] r@[j]).0 == self.comments@.subrange(
                        0,
                        i as int,
                    ).filter(on_post(post_id))[j] && r@[j].1 == users.user_with_id(
                        self.comments@.subrange(0, i as int).filter(on_post(post_id))[j].user_id
                            as int,
                    ),
            decreases n - i,
        {
            proof {
                assert(self.comments@.subrange(0, i + 1).drop_last() =~= self.comments@.subrange(
                    0,
                    i as int,
                ));
                assert(self.comments@.subrange(0, i + 1).last() == self.comments@[i as int]);
                reveal(Seq::filter);
            }
            proof {
                assert(self.comment_refs_ok(users, i as int));
            }
            if self.comments[i].post_id == post_id {
                let author = users.user_by_id(self.comments[i].user_id);
                r.push((self.comments[i].duplicate(), author));
            }
            i = i + 1;
        }
        proof {
            assert(self.comments@.subrange(0, n as int) =~= self.comments@);
        }
        r
    }
}

/// Appending a comment extends exactly its own post's comment sequence
/// and leaves every other post's sequence unchanged.
pub proof fn lemma_comments_of_after_push(s: Seq<Comment>, c: Comment, post_id: i32)
    ensures
        c.post_id == post_id ==> s.push(c).filter(on_post(post_id)) == s.filter(
            on_post(post_id),
        ).push(c),
        c.post_id != post_id ==> s.push(c).filter(on_post(post_id)) == s.filter(on_post(post_id)),
{
    reveal(Seq::filter);
    assert(s.push(c).drop_last() =~= s);
}

/// A stored post is found again under its own identifier: fetching by
/// the identifier a creation returned yields the created record.
pub proof fn lemma_get_post_round_trip(
    repo: ContentRepository,
    users: CredentialStore,
    p: Post,
)
    requires
        repo.wf(&users),
        repo.posts@.contains(p),
    ensures
        repo.has_post_id(p.id as int),
        repo.post_with_id(p.id as int) == p,
{
    let i = choose|i: int| 0 <= i < repo.posts@.len() && repo.posts@[i] == p;
    assert(repo.posts@[i].id == i + 1);
}

/// Parent links form a forest per post: a stored comment's parent, if
/// any, is a comment with a strictly smaller identifier on the same
/// post, so no chain of parent links can cycle and none crosses posts.
pub proof fn lemma_comment_parents_form_forest(
    repo: ContentRepository,
    users: CredentialStore,
    i: int,
)
    requires
        repo.wf(&users),
        0 <= i < repo.comments@.len(),
    ensures
        repo.comments@[i].parent_comment_id matches Some(p) ==> {
            &&& repo.has_comment_id(p as int)
            &&& p < repo.comments@[i].id
            &&& repo.comment_with_id(p as int).post_id == repo.comments@[i].post_id
        },
{
    assert(repo.comment_refs_ok(&users, i));
}

/// Stored comments carry pairwise distinct identifiers.
pub proof fn lemma_comment_ids_unique(repo: ContentRepository, users: CredentialStore)
    requires
        repo.wf(&users),
    ensures
        forall|i: int, j: int|
            0 <= i < j < repo.comments@.len() ==> (#[trigger] repo.comments@[i]).id != (
            #[trigger] repo.comments@[j]).id,
{
}

} // verus!
