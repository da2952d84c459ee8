//! The process identity: a UUID kept in a remote store, created on first run.
use vstd::prelude::*;

verus! {

pub open spec fn is_lower_hex(c: char) -> bool {
    ('0' <= c && c <= '9') || ('a' <= c && c <= 'f')
}

pub open spec fn is_hyphen_position(i: int) -> bool {
    i == 8 || i == 13 || i == 18 || i == 23
}

/// `s` is a random (version 4, RFC 4122 variant) UUID in lower-case hyphenated
/// form, such as `0b1e7c52-3f0a-4d5e-9a1b-2c3d4e5f6a7b`.
pub open spec fn is_uuid_v4(s: Seq<char>) -> bool {
    &&& s.len() == 36
    &&& forall|i: int| 0 <= i < 36 && is_hyphen_position(i) ==> s[i] == '-'
    &&& forall|i: int| 0 <= i < 36 && !is_hyphen_position(i) ==> is_lower_hex(#[trigger] s[i])
    &&& s[14] == '4'
    &&& (s[19] == '8' || s[19] == '9' || s[19] == 'a' || s[19] == 'b')
}

/// Relies on uuid's `Uuid::new_v4`, which sets the version and variant bits
/// of a random value, and on its `Display`, which writes the lower-case
/// hyphenated form.
#[verifier::external_body]
fn random_uuid() -> (r: String)
    ensures
        is_uuid_v4(r@),
{
    uuid::Uuid::new_v4().to_string()
}

/// The identity to use and whether it must be written to the store.
#[derive(Debug, PartialEq, Eq)]
pub struct IdentityChoice {
    pub identity: String,
    pub persist: bool,
}

/// The store holds an identity when its answer came back and is not empty;
/// an error or an empty body means there is none yet.
pub open spec fn holds_identity(stored: Option<String>) -> bool {
    stored is Some && stored->0@.len() > 0
}

/// Get-or-create with a fresh value in hand: the stored identity when there
/// is one, left as it is; otherwise `fresh`, to be written back.
pub fn choose_identity(stored: Option<String>, fresh: String) -> (r: IdentityChoice)
    ensures
        holds_identity(stored) ==> r.identity@ == stored->0@ && !r.persist,
        !holds_identity(stored) ==> r.identity@ == fresh@ && r.persist,
{
    match stored {
        Some(s) => {
            if s.unicode_len() > 0 {
                IdentityChoice { identity: s, persist: false }
            } else {
                IdentityChoice { identity: fresh, persist: true }
            }
        },
        None => IdentityChoice { identity: fresh, persist: true },
    }
}

/// Get-or-create: the stored identity when there is one, without a write;
/// otherwise a new random UUID, which is to be written to the store and used
/// whether or not that write succeeds.
pub fn resolve_identity(stored: Option<String>) -> (r: IdentityChoice)
    ensures
        holds_identity(stored) ==> r.identity@ == stored->0@ && !r.persist,
        !holds_identity(stored) ==> is_uuid_v4(r.identity@) && r.persist,
{
    if holds_stored(&stored) {
        choose_identity(stored, String::new())
    } else {
        choose_identity(stored, random_uuid())
    }
}

fn holds_stored(stored: &Option<String>) -> (r: bool)
    ensures
        r == holds_identity(*stored),
{
    match stored {
        Some(s) => s.unicode_len() > 0,
        None => false,
    }
}

} // verus!
