//! The session issuer: mints unguessable session tokens and persists them
//! against a user id before handing them out.
//!
//! A token is drawn from a cryptographically strong source, 32 characters
//! over a 62-symbol alphanumeric alphabet, so online guessing is
//! infeasible. If persisting fails, no token is returned: a caller must
//! never set a cookie for an unpersisted token.

use vstd::prelude::*;

use rand::RngExt;

use crate::error::DbError;
use crate::store::Users;

verus! {

/// Issued tokens are exactly this many characters long.
pub const TOKEN_LEN: usize = 32;

/// The token alphabet: ASCII letters and digits (62 symbols).
pub open spec fn is_token_char(c: char) -> bool {
    (97 <= c as u32 && c as u32 <= 122)  // 'a' ..= 'z'
    || (65 <= c as u32 && c as u32 <= 90)  // 'A' ..= 'Z'
    || (48 <= c as u32 && c as u32 <= 57)  // '0' ..= '9'
}

/// A well-shaped session token: exactly [`TOKEN_LEN`] characters, all from
/// the token alphabet.
pub open spec fn is_token(s: Seq<char>) -> bool {
    s.len() == TOKEN_LEN && (forall|i: int| 0 <= i < s.len() ==> is_token_char(s[i]))
}

/// Relies on rand's thread RNG sampling the `Alphanumeric` distribution:
/// every drawn byte is an ASCII letter or digit, and exactly `len` are
/// drawn. Nothing else is assumed of a random draw; two calls need not
/// agree.
#[verifier::external_body]
fn random_alphanumeric(len: usize) -> (r: String)
    ensures
        r@.len() == len,
        forall|i: int| 0 <= i < r@.len() ==> is_token_char(r@[i]),
{
    rand::rng().sample_iter(rand::distr::Alphanumeric).take(len).map(char::from).collect()
}

/// Draws a fresh, well-shaped session token from the strong random source.
pub fn generate_token() -> (t: String)
    ensures
        is_token(t@),
{
    random_alphanumeric(TOKEN_LEN)
}

/// Issues a session for `user_id`: draws a token and persists it via the
/// credential store; the token is returned only once it is stored. The
/// only failures are the store's own: connectivity loss, or the freshly
/// drawn token colliding with one already bound.
pub fn issue(store: &mut Users, user_id: i32) -> (r: Result<String, DbError>)
    requires
        old(store).wf(),
    ensures
        final(store).wf(),
        final(store).users_map() == old(store).users_map(),
        final(store).is_available() == old(store).is_available(),
        r matches Ok(token) ==> is_token(token@) && old(store).is_available() && !old(
            store,
        ).sessions_map().contains_key(token@) && final(store).sessions_map() == old(
            store,
        ).sessions_map().insert(token@, user_id),
        r is Err ==> final(store).sessions_map() == old(store).sessions_map(),
        !old(store).is_available() ==> r == Err::<String, DbError>(DbError::Unreachable),
        r == Err::<String, DbError>(DbError::Unreachable) ==> !old(store).is_available(),
        r == Err::<String, DbError>(DbError::UniqueViolation) ==> (exists|t: Seq<char>|
            is_token(t) && old(store).sessions_map().contains_key(t)),
        old(store).is_available() && (forall|t: Seq<char>|
            is_token(t) ==> !old(store).sessions_map().contains_key(t)) ==> r is Ok,
{
    let token = generate_token();
    proof {
        if forall|t: Seq<char>| is_token(t) ==> !old(store).sessions_map().contains_key(t) {
            assert(!old(store).sessions_map().contains_key(token@));
        }
    }
    match store.create_session(user_id, token.as_str()) {
        Ok(()) => Ok(token),
        Err(e) => {
            proof {
                if old(store).is_available() {
                    assert(is_token(token@) && old(store).sessions_map().contains_key(token@));
                }
            }
            Err(e)
        },
    }
}

} // verus!
