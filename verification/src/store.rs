//! The credential store: user credentials and live session tokens.
//!
//! Users are created out of band (seed/admin) and never mutated here;
//! sessions are inserted by the login flow and resolved by the auth guard.
//! The store's contracts speak of two maps: username to (user id, stored
//! hash), and session token to owning user id. An `available` switch
//! models connectivity: while the store is unreachable, session operations
//! answer `DbError::Unreachable` instead of pretending a token is invalid.

use vstd::prelude::*;

use crate::assoc::{distinct_keys, lemma_map_of_absent, lemma_map_of_entry, lemma_map_of_push,
    map_of};
use crate::error::DbError;

verus! {

/// One row of the user table: `users(uid, username, password_hash)`.
#[derive(Debug)]
pub struct UserRecord {
    pub uid: i32,
    pub username: String,
    pub password_hash: String,
}

/// One row of the session table: `user_sessions(uid, token)`.
#[derive(Debug)]
pub struct SessionRecord {
    pub uid: i32,
    pub token: String,
}

/// The store itself. One user may hold several concurrent sessions, but a
/// token, once issued, maps to exactly one user id for its lifetime.
pub struct Users {
    users: Vec<UserRecord>,
    sessions: Vec<SessionRecord>,
    available: bool,
}

/// What a username looks up to in a user map: (user id, stored password
/// hash), or nothing when no such username exists.
pub open spec fn lookup_credentials(
    users: Map<Seq<char>, (i32, Seq<char>)>,
    username: Seq<char>,
) -> Option<(i32, Seq<char>)> {
    if users.contains_key(username) {
        Some(users[username])
    } else {
        None
    }
}

/// What a token resolves to in a session map: its owner's id, or nothing.
pub open spec fn resolve_token(sessions: Map<Seq<char>, i32>, token: Seq<char>) -> Option<i32> {
    if sessions.contains_key(token) {
        Some(sessions[token])
    } else {
        None
    }
}

impl Users {
    /// The user rows as (username, (uid, password_hash)) entries.
    closed spec fn user_entries(self) -> Seq<(Seq<char>, (i32, Seq<char>))> {
        self.users@.map_values(|r: UserRecord| (r.username@, (r.uid, r.password_hash@)))
    }

    /// The session rows as (token, uid) entries.
    closed spec fn session_entries(self) -> Seq<(Seq<char>, i32)> {
        self.sessions@.map_values(|r: SessionRecord| (r.token@, r.uid))
    }

    /// Username to (user id, stored password hash).
    pub closed spec fn users_map(self) -> Map<Seq<char>, (i32, Seq<char>)> {
        map_of(self.user_entries())
    }

    /// Session token to owning user id.
    pub closed spec fn sessions_map(self) -> Map<Seq<char>, i32> {
        map_of(self.session_entries())
    }

    /// Whether the storage layer is reachable.
    pub closed spec fn is_available(self) -> bool {
        self.available
    }

    /// Usernames are unique, and so are session tokens.
    pub closed spec fn wf(self) -> bool {
        distinct_keys(self.user_entries()) && distinct_keys(self.session_entries())
    }

    /// An empty, reachable store.
    pub fn new() -> (s: Users)
        ensures
            s.wf(),
            s.users_map() == Map::<Seq<char>, (i32, Seq<char>)>::empty(),
            s.sessions_map() == Map::<Seq<char>, i32>::empty(),
            s.is_available(),
    {
        Users { users: Vec::new(), sessions: Vec::new(), available: true }
    }

    /// Switches connectivity on or off; nothing else changes.
    pub fn set_available(&mut self, available: bool)
        ensures
            final(self).wf() == old(self).wf(),
            final(self).users_map() == old(self).users_map(),
            final(self).sessions_map() == old(self).sessions_map(),
            final(self).is_available() == available,
    {
        self.available = available;
    }

    /// Seeds one user row. Fails only when the username is already taken;
    /// the row, like the real table's, is written out of band and does not
    /// go through the modelled connection.
    pub fn add_user(&mut self, uid: i32, username: String, password_hash: String) -> (r: Result<
        (),
        DbError,
    >)
        requires
            old(self).wf(),
        ensures
            final(self).wf(),
            final(self).sessions_map() == old(self).sessions_map(),
            final(self).is_available() == old(self).is_available(),
            old(self).users_map().contains_key(username@) ==> r == Err::<(), DbError>(
                DbError::UniqueViolation,
            ) && final(self).users_map() == old(self).users_map(),
            !old(self).users_map().contains_key(username@) ==> r == Ok::<(), DbError>(())
                && final(self).users_map() == old(self).users_map().insert(
                username@,
                (uid, password_hash@),
            ),
    {
        let ghost pre = self.user_entries();
        let ghost uname = username@;
        let ghost phash = password_hash@;
        match self.find_user(username.as_str()) {
            Some(_) => {
                proof {
                    lemma_map_of_entry(pre, choose|i: int|
                        0 <= i < pre.len() && pre[i].0 == uname);
                }
                Err(DbError::UniqueViolation)
            }
            None => {
                proof {
                    lemma_map_of_absent(pre, uname);
                    lemma_map_of_push(pre, uname, (uid, phash));
                }
                self.users.push(UserRecord { uid, username, password_hash });
                proof {
                    assert(self.user_entries() =~~= pre.push((uname, (uid, phash))));
                    assert(self.session_entries() =~~= old(self).session_entries());
                }
                Ok(())
            }
        }
    }

    /// Case-sensitive exact lookup of a username; absence is a normal
    /// outcome, not a failure.
    pub fn get_userid_password_from_username(&self, username: &str) -> (r: Option<(i32, String)>)
        requires
            self.wf(),
        ensures
            r.deep_view() == lookup_credentials(self.users_map(), username@),
    {
        let ghost entries = self.user_entries();
        match self.find_user(username) {
            Some(i) => {
                proof {
                    lemma_map_of_entry(entries, i as int);
                }
                Some((self.users[i].uid, self.users[i].password_hash.clone()))
            }
            None => {
                proof {
                    lemma_map_of_absent(entries, username@);
                }
                None
            }
        }
    }

    /// Inserts a new session row binding `token` to `user_id`. Fails only
    /// on storage-layer errors: connectivity loss, or a token that is
    /// already bound.
    pub fn create_session(&mut self, user_id: i32, token: &str) -> (r: Result<(), DbError>)
        requires
            old(self).wf(),
        ensures
            final(self).wf(),
            final(self).users_map() == old(self).users_map(),
            final(self).is_available() == old(self).is_available(),
            !old(self).is_available() ==> r == Err::<(), DbError>(DbError::Unreachable)
                && final(self).sessions_map() == old(self).sessions_map(),
            old(self).is_available() && old(self).sessions_map().contains_key(token@) ==> r
                == Err::<(), DbError>(DbError::UniqueViolation) && final(self).sessions_map()
                == old(self).sessions_map(),
            old(self).is_available() && !old(self).sessions_map().contains_key(token@) ==> r
                == Ok::<(), DbError>(()) && final(self).sessions_map()
                == old(self).sessions_map().insert(token@, user_id),
    {
        if !self.available {
            return Err(DbError::Unreachable);
        }
        let ghost pre = self.session_entries();
        let ghost tok = token@;
        match self.find_session(token) {
            Some(_) => {
                proof {
                    lemma_map_of_entry(pre, choose|i: int| 0 <= i < pre.len() && pre[i].0 == tok);
                }
                Err(DbError::UniqueViolation)
            }
            None => {
                proof {
                    lemma_map_of_absent(pre, tok);
                    lemma_map_of_push(pre, tok, user_id);
                }
                self.sessions.push(SessionRecord { uid: user_id, token: token.to_owned() });
                proof {
                    assert(self.session_entries() =~~= pre.push((tok, user_id)));
                    assert(self.user_entries() =~~= old(self).user_entries());
                }
                Ok(())
            }
        }
    }

    /// Resolves a session token to its owning user id. An unknown token is
    /// `Ok(None)`; an unreachable store is an error of its own, so callers
    /// can tell "not logged in" apart from "auth backend is down".
    pub fn resolve_session(&self, token: &str) -> (r: Result<Option<i32>, DbError>)
        requires
            self.wf(),
        ensures
            !self.is_available() ==> r == Err::<Option<i32>, DbError>(DbError::Unreachable),
            self.is_available() ==> r == Ok::<Option<i32>, DbError>(
                resolve_token(self.sessions_map(), token@),
            ),
    {
        if !self.available {
            return Err(DbError::Unreachable);
        }
        let ghost entries = self.session_entries();
        match self.find_session(token) {
            Some(i) => {
                proof {
                    lemma_map_of_entry(entries, i as int);
                }
                Ok(Some(self.sessions[i].uid))
            }
            None => {
                proof {
                    lemma_map_of_absent(entries, token@);
                }
                Ok(None)
            }
        }
    }

    /// The position of the row for `username`, if one exists.
    fn find_user(&self, username: &str) -> (r: Option<usize>)
        ensures
            match r {
                Some(i) => i < self.user_entries().len() && self.user_entries()[i as int].0
                    == username@,
                None => forall|i: int|
                    0 <= i < self.user_entries().len() ==> self.user_entries()[i].0 != username@,
            },
    {
        let n = self.users.len();
        let mut i: usize = 0;
        while i < n
            invariant
                i <= n,
                n == self.users@.len(),
                forall|k: int| 0 <= k < i ==> self.user_entries()[k].0 != username@,
            decreases n - i,
        {
            if str_eq(self.users[i].username.as_str(), username) {
                return Some(i);
            }
            i += 1;
        }
        None
    }

    /// The position of the row for `token`, if one exists.
    fn find_session(&self, token: &str) -> (r: Option<usize>)
        ensures
            match r {
                Some(i) => i < self.session_entries().len() && self.session_entries()[i as int].0
                    == token@,
                None => forall|i: int|
                    0 <= i < self.session_entries().len() ==> self.session_entries()[i].0
                        != token@,
            },
    {
        let n = self.sessions.len();
        let mut i: usize = 0;
        while i < n
            invariant
                i <= n,
                n == self.sessions@.len(),
                forall|k: int| 0 <= k < i ==> self.session_entries()[k].0 != token@,
            decreases n - i,
        {
            if str_eq(self.sessions[i].token.as_str(), token) {
                return Some(i);
            }
            i += 1;
        }
        None
    }
}

/// The pluggable-store interface: a liveness probe the boundary layer polls.
pub trait Database {
    /// Whether the store currently answers at all.
    fn healthcheck(&self) -> Result<(), ()>;
}

/// The verdict of a liveness probe: the store is healthy exactly when its
/// probe query answered the one expected row.
pub fn healthcheck_probe(row: i64) -> (r: Result<(), ()>)
    ensures
        r is Ok <==> row == 1,
{
    if row == 1 {
        Ok(())
    } else {
        Err(())
    }
}

impl Database for Users {
    fn healthcheck(&self) -> Result<(), ()> {
        if self.available {
            Ok(())
        } else {
            Err(())
        }
    }
}

/// Once issued, a token keeps resolving to its owner: binding a token in a
/// session map makes it resolve to that user id, leaves every other
/// token's resolution as it was, and a token that was never bound still
/// resolves to nothing.
pub proof fn lemma_issued_token_resolves(
    sessions: Map<Seq<char>, i32>,
    token: Seq<char>,
    uid: i32,
    other: Seq<char>,
)
    ensures
        resolve_token(sessions.insert(token, uid), token) == Some(uid),
        other != token ==> resolve_token(sessions.insert(token, uid), other) == resolve_token(
            sessions,
            other,
        ),
        !sessions.contains_key(other) && other != token ==> resolve_token(
            sessions.insert(token, uid),
            other,
        ) is None,
{
}

/// Relies on `str`'s `PartialEq`: string slices are equal exactly when
/// their characters are.
#[verifier::external_body]
pub(crate) fn str_eq(a: &str, b: &str) -> (r: bool)
    ensures
        r == (a@ == b@),
{
    a == b
}

} // verus!
