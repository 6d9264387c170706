//! Small helpers on strings, stated over their character sequences.
use vstd::prelude::*;
use vstd::string::StringExecFns;

verus! {

/// The character sequences of a list of strings.
pub open spec fn texts(items: Seq<String>) -> Seq<Seq<char>> {
    Seq::new(items.len(), |i: int| items[i]@)
}

/// The character sequence of an optional string.
pub open spec fn opt_text(item: Option<String>) -> Option<Seq<char>> {
    match item {
        Some(s) => Some(s@),
        None => None,
    }
}

/// What `std` writes for a string under `{:?}`: the string between double
/// quotes, with the characters escaped that `str`'s `Debug` escapes.
pub uninterp spec fn quoted(text: Seq<char>) -> Seq<char>;

/// A string as diagnostic text shows it.
///
/// Not verified: the body is one call of `std`'s `format!` with `{:?}` on a
/// `str`, which runs `<str as core::fmt::Debug>::fmt`. The contract does not
/// say what the text is. It gives the text the name [`quoted`], and so claims
/// only that the same characters give the same text.
#[verifier::external_body]
pub(crate) fn quote(text: &str) -> (r: String)
    ensures
        r@ == quoted(text@),
{
    format!("{:?}", text)
}

/// An owned copy of a string slice.
pub fn owned(s: &str) -> (r: String)
    ensures
        r@ == s@,
{
    String::from_str(s)
}

/// An owned copy of an optional string.
pub fn owned_opt(s: &Option<String>) -> (r: Option<String>)
    ensures
        opt_text(r) == opt_text(*s),
{
    match s {
        Some(text) => Some(text.clone()),
        None => None,
    }
}

/// `a` followed by `b`.
pub fn joined(a: &str, b: &str) -> (r: String)
    ensures
        r@ == a@ + b@,
{
    String::from_str(a).concat(b)
}

/// Whether two strings hold the same characters.
pub fn same(a: &str, b: &str) -> (r: bool)
    ensures
        r == (a@ == b@),
{
    let left = String::from_str(a);
    let right = String::from_str(b);
    left == right
}

/// Whether `wanted` occurs among `items`.
pub fn contains(items: &Vec<String>, wanted: &str) -> (r: bool)
    ensures
        r == texts(items@).contains(wanted@),
{
    let target = String::from_str(wanted);
    let mut i: usize = 0;
    while i < items.len()
        invariant
            i <= items.len(),
            target@ == wanted@,
            forall|j: int| 0 <= j < i ==> texts(items@)[j] != wanted@,
        decreases items.len() - i,
    {
        if items[i] == target {
            assert(texts(items@)[i as int] == wanted@);
            return true;
        }
        i += 1;
    }
    false
}

} // verus!
