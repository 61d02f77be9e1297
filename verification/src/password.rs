//! Password hashing: a salted, memory-hard hash of the plaintext and its
//! verification.

use vstd::prelude::*;
use vstd::string::*;

verus! {

/// What `libpasta::verify_password` answers for a stored hash and a candidate
/// plaintext. It is only spoken of for hashes in the default scheme, on which
/// the answer is scrypt of the candidate under the salt the hash carries,
/// compared with the digest the hash carries.
pub uninterp spec fn pasta_accepts(hash: Seq<char>, password: Seq<char>) -> bool;

/// How every hash made here begins: the scheme's name and its parameters.
pub const DEFAULT_SCHEME: &'static str = "$$scrypt$ln=14,r=8,p=1$";

/// Whether `hash` is in the scheme that `hash_password` writes.
pub open spec fn is_default_scheme(hash: Seq<char>) -> bool {
    DEFAULT_SCHEME@.is_prefix_of(hash)
}

/// Whether the stored `hash` stands for `candidate`. A hash in any other
/// scheme stands for no password.
pub open spec fn password_matches(hash: Seq<char>, candidate: Seq<char>) -> bool {
    is_default_scheme(hash) && pasta_accepts(hash, candidate)
}

/// Calls `libpasta::hash_password`, which draws a fresh salt and hashes with
/// the library's default configuration. The contract claims that the text
/// returned is in the default scheme and that `libpasta::verify_password`
/// accepts the same password against it.
#[verifier::external_body]
fn pasta_hash(password: &str) -> (hash: String)
    ensures
        is_default_scheme(hash@),
        pasta_accepts(hash@, password@),
{
    libpasta::hash_password(password)
}

/// Calls `libpasta::verify_password`. Hashes outside the default scheme are
/// left out: for some of them the call panics on parameters or keys it cannot
/// use.
#[verifier::external_body]
fn pasta_verify(hash: &str, password: &str) -> (ok: bool)
    requires
        is_default_scheme(hash@),
    ensures
        ok == pasta_accepts(hash@, password@),
{
    libpasta::verify_password(hash, password)
}

/// Whether `hash` begins as the hashes made here do.
pub fn has_default_scheme(hash: &str) -> (yes: bool)
    ensures
        yes == is_default_scheme(hash@),
{
    let scheme = DEFAULT_SCHEME;
    let n = scheme.unicode_len();
    if hash.unicode_len() < n {
        return false;
    }
    let mut i: usize = 0;
    while i < n
        invariant
            i <= n,
            n == scheme@.len(),
            n <= hash@.len(),
            scheme@ == DEFAULT_SCHEME@,
            forall|j: int| 0 <= j < i ==> hash@[j] == scheme@[j],
        decreases n - i,
    {
        if hash.get_char(i) != scheme.get_char(i) {
            assert(hash@.subrange(0, n as int)[i as int] != scheme@[i as int]);
            return false;
        }
        i += 1;
    }
    assert(scheme@ =~= hash@.subrange(0, n as int));
    true
}

/// Hashes `password` under a fresh salt. Two calls on one plaintext give
/// different texts; each of them matches that plaintext.
pub fn hash_password(password: &str) -> (hash: String)
    ensures
        password_matches(hash@, password@),
{
    pasta_hash(password)
}

/// Whether `candidate` is the plaintext that `hash` was made from. A stored
/// text that is no hash of the default scheme matches nothing.
pub fn verify_password(hash: &str, candidate: &str) -> (ok: bool)
    ensures
        ok == password_matches(hash@, candidate@),
{
    if has_default_scheme(hash) {
        pasta_verify(hash, candidate)
    } else {
        false
    }
}

} // verus!
