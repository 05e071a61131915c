use vstd::prelude::*;

verus! {

/// What `str::trim` leaves of a text: the same characters without leading and
/// trailing whitespace.
pub uninterp spec fn trim_of(s: Seq<char>) -> Seq<char>;

/// Two address texts denote the same address when they agree after trimming.
pub open spec fn same_address(a: Seq<char>, b: Seq<char>) -> bool {
    trim_of(a) == trim_of(b)
}

/// Relies on `str::trim`: the result depends on the characters alone, and
/// trimming an already trimmed text leaves it as it is.
#[verifier::external_body]
fn trim(s: &str) -> (r: &str)
    ensures
        r@ == trim_of(s@),
        trim_of(r@) == r@,
{
    s.trim()
}

/// The address text with surrounding whitespace removed.
pub fn normalize(s: &str) -> (r: String)
    ensures
        r@ == trim_of(s@),
        trim_of(r@) == r@,
{
    trim(s).to_owned()
}

/// Whether two address texts denote the same address: exact equality of the
/// characters once both are trimmed.
pub fn is_same_address(a: &str, b: &str) -> (r: bool)
    ensures
        r == same_address(a@, b@),
{
    let ta = normalize(a);
    let tb = normalize(b);
    ta == tb
}

} // verus!
