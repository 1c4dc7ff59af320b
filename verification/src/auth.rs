//! The login flow: credential lookup, password verification and session
//! issuance, each step short-circuiting on failure.
//!
//! The flow is username-enumeration resistant by construction: an unknown
//! username and a wrong password produce the identical outward error, so a
//! client cannot learn whether an account exists. That invariant is stated
//! and proved in [`lemma_uniform_unauthorized`].

use vstd::prelude::*;
use vstd::string::StringSliceAdditionalSpecFns;

use crate::error::{DbError, Error};
use crate::session::{is_token, issue};
use crate::store::{lookup_credentials, Users};
use crate::verify::{hash_wellformed, password_matches, verify, VerifyError};

verus! {

/// The per-request authenticated context: the resolved user id.
#[derive(Clone, Copy, Debug, PartialEq, Eq, Structural)]
pub struct Ctx {
    pub user_id: i32,
}

/// What a protected handler receives once the guard accepts its request.
#[derive(Clone, Copy, Debug, PartialEq, Eq, Structural)]
pub struct AuthUser(pub Ctx);

/// A submitted login form: a username and a plaintext password.
#[derive(Debug)]
pub struct LoginModel {
    pub username: String,
    pub password: String,
}

/// The decision the login flow takes on a credential-lookup result and a
/// submitted password: an unknown username is rejected exactly like a
/// wrong password, and only an unusable stored hash is an internal fault.
pub open spec fn credential_decision(
    lookup: Option<(i32, Seq<char>)>,
    password: Seq<u8>,
) -> Result<i32, Error> {
    match lookup {
        None => Err(Error::Unauthorized),
        Some(found) => if !hash_wellformed(found.1) {
            Err(Error::Internal)
        } else if password_matches(password, found.1) {
            Ok(found.0)
        } else {
            Err(Error::Unauthorized)
        },
    }
}

/// The credential decision for a username against a whole user table.
pub open spec fn login_decision(
    users: Map<Seq<char>, (i32, Seq<char>)>,
    username: Seq<char>,
    password: Seq<u8>,
) -> Result<i32, Error> {
    credential_decision(lookup_credentials(users, username), password)
}

/// Checks one credential-lookup result against the submitted password;
/// this is the whole decision between lookup and session issuance, so a
/// boundary layer that performs its own lookup can reuse it unchanged.
pub fn check_credentials(lookup: Option<(i32, String)>, password: &str) -> (r: Result<i32, Error>)
    ensures
        r == credential_decision(lookup.deep_view(), password.spec_bytes()),
{
    match lookup {
        None => Err(Error::Unauthorized),
        Some((uid, hash)) => match verify(password.as_bytes(), hash.as_str()) {
            Ok(()) => Ok(uid),
            Err(VerifyError::PasswordMismatch) => Err(Error::Unauthorized),
            Err(VerifyError::HashMalformed) => Err(Error::Internal),
        },
    }
}

/// The login flow. On success exactly one new session row is bound to the
/// returned token; no existing session is touched. A rejected credential
/// reports the decision's own error and leaves the store unchanged; a
/// storage failure after acceptance surfaces as `Error::Database`.
pub fn login(store: &mut Users, username: &str, password: &str) -> (r: Result<String, Error>)
    requires
        old(store).wf(),
    ensures
        final(store).wf(),
        final(store).users_map() == old(store).users_map(),
        final(store).is_available() == old(store).is_available(),
        login_decision(old(store).users_map(), username@, password.spec_bytes()) matches Err(e)
            ==> r == Err::<String, Error>(e) && final(store).sessions_map() == old(
            store,
        ).sessions_map(),
        login_decision(old(store).users_map(), username@, password.spec_bytes()) matches Ok(uid)
            ==> (r matches Ok(token) ==> is_token(token@) && !old(
            store,
        ).sessions_map().contains_key(token@) && final(store).sessions_map() == old(
            store,
        ).sessions_map().insert(token@, uid)),
        login_decision(old(store).users_map(), username@, password.spec_bytes()) is Ok && r is Err
            ==> final(store).sessions_map() == old(store).sessions_map() && (r matches Err(e)
            && e matches Error::Database(_)),
        login_decision(old(store).users_map(), username@, password.spec_bytes()) is Ok && !old(
            store,
        ).is_available() ==> r == Err::<String, Error>(Error::Database(DbError::Unreachable)),
        login_decision(old(store).users_map(), username@, password.spec_bytes()) is Ok && old(
            store,
        ).is_available() && (forall|t: Seq<char>|
            is_token(t) ==> !old(store).sessions_map().contains_key(t)) ==> r is Ok,
{
    let lookup = store.get_userid_password_from_username(username);
    let uid = match check_credentials(lookup, password) {
        Ok(uid) => uid,
        Err(e) => {
            return Err(e);
        },
    };
    match issue(store, uid) {
        Ok(token) => Ok(token),
        Err(e) => Err(Error::Database(e)),
    }
}

/// The last step of the login flow: the freshly drawn token is handed out
/// only once the store has persisted it; a storage failure withholds it
/// and surfaces as `Error::Database`.
pub fn finish_login(token: String, persisted: Result<(), DbError>) -> (r: Result<String, Error>)
    ensures
        persisted is Ok ==> r == Ok::<String, Error>(token),
        persisted matches Err(e) ==> r == Err::<String, Error>(Error::Database(e)),
{
    match persisted {
        Ok(()) => Ok(token),
        Err(e) => Err(Error::Database(e)),
    }
}

/// Every registered pair is accepted: for a username the table knows,
/// whose stored hash is usable and matches the submitted password, the
/// login decision is that user's id.
pub proof fn lemma_registered_user_accepted(
    users: Map<Seq<char>, (i32, Seq<char>)>,
    username: Seq<char>,
    password: Seq<u8>,
)
    requires
        users.contains_key(username),
        hash_wellformed(users[username].1),
        password_matches(password, users[username].1),
    ensures
        login_decision(users, username, password) == Ok::<i32, Error>(users[username].0),
{
}

/// Username-enumeration resistance: an unknown username (with any
/// password) and a known username with a non-matching password yield the
/// identical `Unauthorized` error.
pub proof fn lemma_uniform_unauthorized(
    users: Map<Seq<char>, (i32, Seq<char>)>,
    unknown: Seq<char>,
    any_password: Seq<u8>,
    known: Seq<char>,
    wrong_password: Seq<u8>,
)
    requires
        !users.contains_key(unknown),
        users.contains_key(known),
        hash_wellformed(users[known].1),
        !password_matches(wrong_password, users[known].1),
    ensures
        login_decision(users, unknown, any_password) == login_decision(
            users,
            known,
            wrong_password,
        ),
        login_decision(users, unknown, any_password) == Err::<i32, Error>(Error::Unauthorized),
{
}

} // verus!
