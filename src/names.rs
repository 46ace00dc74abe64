use vstd::prelude::*;
use rand::distr::Alphanumeric;
use rand::Rng;

verus! {

/// Number of random characters appended to every run-scoped resource name.
pub const SUFFIX_LEN: usize = 10;

/// An ASCII letter or digit: what the random suffix is drawn from.
pub open spec fn is_alnum(c: char) -> bool {
    ('a' <= c && c <= 'z') || ('A' <= c && c <= 'Z') || ('0' <= c && c <= '9')
}

pub open spec fn all_alnum(s: Seq<char>) -> bool {
    forall|i: int| 0 <= i < s.len() ==> #[trigger] is_alnum(s[i])
}

/// Relies on rand's `Alphanumeric` distribution, sampled from the thread-local
/// generator: each sample is one byte of `A-Z`, `a-z` or `0-9`.
#[verifier::external_body]
fn random_alphanumeric(n: usize) -> (r: String)
    ensures
        r@.len() == n,
        all_alnum(r@),
{
    rand::rng().sample_iter(Alphanumeric).take(n).map(char::from).collect()
}

/// A fresh random suffix that keeps the names of one run apart from those of
/// other runs.
pub fn random_suffix() -> (r: String)
    ensures
        r@.len() == SUFFIX_LEN,
        all_alnum(r@),
{
    random_alphanumeric(SUFFIX_LEN)
}

pub open spec fn scoped_name(prefix: Seq<char>, suffix: Seq<char>) -> Seq<char> {
    prefix + suffix
}

/// The name `prefix` followed by `suffix`.
pub fn run_scoped_name(prefix: &str, suffix: &str) -> (r: String)
    ensures
        r@ == scoped_name(prefix@, suffix@),
{
    let mut r = prefix.to_owned();
    r.append(suffix);
    r
}

/// Name of the run's network-access rule set.
pub fn security_group_name(suffix: &str) -> (r: String)
    ensures
        r@ == scoped_name("flotilla_security_"@, suffix@),
{
    run_scoped_name("flotilla_security_", suffix)
}

/// Name of the run's ephemeral key pair.
pub fn key_pair_name(suffix: &str) -> (r: String)
    ensures
        r@ == scoped_name("flotilla_key_"@, suffix@),
{
    run_scoped_name("flotilla_key_", suffix)
}

} // verus!
