use vstd::prelude::*;

use crate::hashing::{hash_chars, hash_seq};

verus! {

/// The opaque, client-held session value: a username together with a
/// keyed tag over it, so a client cannot swap the username in without
/// the tag check failing.
#[derive(Debug, PartialEq)]
pub struct Token {
    pub username: String,
    pub tag: u64,
}

/// Issues and checks session tokens with a server-held key. No
/// server-side session table exists: the token itself carries the
/// identity.
pub struct SessionAuthority {
    pub key: u64,
}

/// Whether a token's tag is the keyed tag of its username.
pub open spec fn token_valid(key: u64, t: Token) -> bool {
    t.tag as int == hash_seq(t.username@, key)
}

/// The username a client-held session resolves to. `None` is anonymous:
/// a missing token, or one whose tag does not check out.
pub open spec fn resolve(key: u64, session: Option<Token>) -> Option<Seq<char>> {
    match session {
        None => None,
        Some(t) => if token_valid(key, t) {
            Some(t.username@)
        } else {
            None
        },
    }
}

impl Token {
    /// An equal copy of this token.
    pub fn duplicate(&self) -> (r: Token)
        ensures
            r == *self,
    {
        Token { username: self.username.clone(), tag: self.tag }
    }
}

impl SessionAuthority {
    /// An authority holding `key`.
    pub fn new(key: u64) -> (a: SessionAuthority)
        ensures
            a.key == key,
    {
        SessionAuthority { key }
    }

    /// Issues a token bound to `username`. The token resolves back to
    /// exactly that username.
    pub fn start_session(&self, username: String) -> (t: Token)
        ensures
            t.username == username,
            token_valid(self.key, t),
            resolve(self.key, Some(t)) == Some(username@),
    {
        let tag = hash_chars(username.as_str(), self.key);
        Token { username, tag }
    }

    /// Decodes and checks a client-held session. Never fails: anything
    /// missing or malformed is anonymous.
    pub fn current_user(&self, session: &Option<Token>) -> (r: Option<String>)
        ensures
            (r is None) <==> (resolve(self.key, *session) is None),
            r matches Some(u) ==> resolve(self.key, *session) == Some(u@),
    {
        match session {
            None => None,
            Some(t) => {
                let expected = hash_chars(t.username.as_str(), self.key);
                if t.tag == expected {
                    Some(t.username.clone())
                } else {
                    None
                }
            },
        }
    }

    /// Clears the client-held token: the session becomes anonymous.
    pub fn end_session(&self, session: &mut Option<Token>)
        ensures
            *final(session) is None,
            resolve(self.key, *final(session)) is None,
    {
        *session = None;
    }
}

/// A session round trip: a token issued for a username resolves to
/// exactly that username, and a cleared session resolves to nobody.
pub proof fn lemma_session_round_trip(key: u64, t: Token)
    requires
        token_valid(key, t),
    ensures
        resolve(key, Some(t)) == Some(t.username@),
        resolve(key, None::<Token>) is None,
{
}

} // verus!
