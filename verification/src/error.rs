//! The error taxonomy shared by the whole subsystem, and its outward
//! mapping to HTTP-equivalent status codes.
//!
//! Storage and cryptographic failures are carried as their own kinds so a
//! boundary layer can log them in full while showing clients nothing more
//! than the status code.

use vstd::prelude::*;

use crate::assoc::{distinct_keys, lemma_map_of_absent, lemma_map_of_entry, lemma_map_of_push,
    lemma_map_of_update, map_of};

verus! {

/// A storage-layer failure: the store could not be reached, or an insert
/// collided with an existing row.
#[derive(Clone, Copy, Debug, PartialEq, Eq, Structural)]
pub enum DbError {
    /// The store did not answer (connectivity loss, pool exhaustion).
    Unreachable,
    /// An insert violated a uniqueness constraint.
    UniqueViolation,
}

/// The failure kinds this subsystem can surface, with their outward
/// meaning. `Database` and `Internal` are logged server-side and shown to
/// clients only as a generic failure.
#[derive(Debug)]
pub enum Error {
    /// Missing or invalid credentials or session.
    Unauthorized,
    /// Authenticated but disallowed action.
    Forbidden,
    /// Resource or route absent.
    NotFound,
    /// Malformed input, with field-level messages grouped by field.
    UnprocessableEntity { errors: Vec<(String, Vec<String>)> },
    /// A storage-layer failure.
    Database(DbError),
    /// A cryptographic-parsing or other internal failure.
    Internal,
}

impl Error {
    /// The HTTP-equivalent status code of each kind.
    pub open spec fn spec_status_code(&self) -> u16 {
        match self {
            Error::Unauthorized => 401,
            Error::Forbidden => 403,
            Error::NotFound => 404,
            Error::UnprocessableEntity { .. } => 422,
            Error::Database(_) => 500,
            Error::Internal => 500,
        }
    }

    /// Maps this kind to its outward status code.
    pub fn status_code(&self) -> (code: u16)
        ensures
            code == self.spec_status_code(),
    {
        match self {
            Error::Unauthorized => 401,
            Error::Forbidden => 403,
            Error::NotFound => 404,
            Error::UnprocessableEntity { .. } => 422,
            Error::Database(_) => 500,
            Error::Internal => 500,
        }
    }

    /// Builds the validation-failure kind from a list of
    /// (field, message) pairs; see [`grouped_messages`] for the grouping.
    pub fn unprocessable_entity(errors: Vec<(String, String)>) -> (r: Error)
        ensures
            r matches Error::UnprocessableEntity { errors: grouped }
                && map_of(grouped.deep_view()) == grouped_messages(errors.deep_view())
                && distinct_keys(grouped.deep_view()),
    {
        let mut out: Vec<(String, Vec<String>)> = Vec::new();
        let n = errors.len();
        let mut idx: usize = 0;
        while idx < n
            invariant
                idx <= n,
                n == errors@.len(),
                distinct_keys(out.deep_view()),
                map_of(out.deep_view()) == grouped_messages(errors.deep_view().take(idx as int)),
            decreases n - idx,
        {
            let key = errors[idx].0.clone();
            let val = errors[idx].1.clone();
            let ghost prev = out.deep_view();
            proof {
                assert(errors.deep_view().take(idx as int).push(
                    (errors@[idx as int].0@, errors@[idx as int].1@))
                    =~= errors.deep_view().take(idx + 1));
                assert(errors.deep_view().take(idx + 1).drop_last()
                    =~= errors.deep_view().take(idx as int));
            }
            match find_field(&out, &key) {
                Some(j) => {
                    proof {
                        lemma_map_of_entry(prev, j as int);
                        lemma_map_of_update(prev, j as int, prev[j as int].1.push(val@));
                    }
                    out[j].1.push(val);
                    proof {
                        assert(out.deep_view() =~~= prev.update(
                            j as int, (prev[j as int].0, prev[j as int].1.push(val@))));
                    }
                }
                None => {
                    proof {
                        lemma_map_of_absent(prev, key@);
                        lemma_map_of_push(prev, key@, seq![val@]);
                    }
                    let mut msgs: Vec<String> = Vec::new();
                    msgs.push(val);
                    out.push((key, msgs));
                    proof {
                        assert(out.deep_view() =~~= prev.push((out@[prev.len() as int].0@,
                            seq![out@[prev.len() as int].1@[0]@])));
                    }
                }
            }
            idx += 1;
        }
        proof {
            assert(errors.deep_view().take(n as int) =~= errors.deep_view());
        }
        Error::UnprocessableEntity { errors: out }
    }
}

/// Field messages grouped by field: each message is appended, in input
/// order, to the list of the field it names.
pub open spec fn grouped_messages(pairs: Seq<(Seq<char>, Seq<char>)>) -> Map<Seq<char>, Seq<Seq<char>>>
    decreases pairs.len(),
{
    if pairs.len() == 0 {
        Map::empty()
    } else {
        let m = grouped_messages(pairs.drop_last());
        let key = pairs.last().0;
        let val = pairs.last().1;
        if m.contains_key(key) {
            m.insert(key, m[key].push(val))
        } else {
            m.insert(key, seq![val])
        }
    }
}

/// The position of the entry for `key`, if one exists.
fn find_field(out: &Vec<(String, Vec<String>)>, key: &String) -> (r: Option<usize>)
    ensures
        match r {
            Some(j) => j < out@.len() && out@[j as int].0@ == key@,
            None => forall|i: int| 0 <= i < out@.len() ==> out@[i].0@ != key@,
        },
{
    let mut j: usize = 0;
    while j < out.len()
        invariant
            j <= out@.len(),
            forall|i: int| 0 <= i < j ==> out@[i].0@ != key@,
        decreases out@.len() - j,
    {
        if out[j].0 == *key {
            return Some(j);
        }
        j += 1;
    }
    None
}

} // verus!
