use vstd::prelude::*;

verus! {

/// `p` occurs in `s` as a contiguous run of characters.
pub open spec fn occurs_in(p: Seq<char>, s: Seq<char>) -> bool {
    exists|i: int| 0 <= i && i + p.len() <= s.len() && #[trigger] s.subrange(i, i + p.len()) == p
}

/// What `str::to_lowercase` makes of a text.
pub uninterp spec fn lower_of(s: Seq<char>) -> Seq<char>;

/// What `str::trim` makes of a text.
pub uninterp spec fn trim_of(s: Seq<char>) -> Seq<char>;

/// Where `p` first occurs in `s` at index `i` or later; -1 where it does not.
pub open spec fn first_occurrence(s: Seq<char>, p: Seq<char>, i: int) -> int
    decreases s.len() - i,
{
    if i < 0 || i + p.len() > s.len() {
        -1
    } else if s.subrange(i, i + p.len()) == p {
        i
    } else if i + p.len() == s.len() {
        -1
    } else {
        first_occurrence(s, p, i + 1)
    }
}

/// `s` with each occurrence of a non-empty `from`, found from left to right
/// without overlap, replaced by `to`.
pub open spec fn replace_of(s: Seq<char>, from: Seq<char>, to: Seq<char>) -> Seq<char>
    decreases s.len(),
{
    let i = first_occurrence(s, from, 0);
    if from.len() > 0 && 0 <= i && i + from.len() <= s.len() {
        s.subrange(0, i) + to + replace_of(s.subrange(i + from.len(), s.len() as int), from, to)
    } else {
        s
    }
}

/// The pieces of `s` between the occurrences of a non-empty `sep`, found from
/// left to right without overlap, in order; `s` alone where there is none.
pub open spec fn split_of(s: Seq<char>, sep: Seq<char>) -> Seq<Seq<char>>
    decreases s.len(),
{
    let i = first_occurrence(s, sep, 0);
    if sep.len() > 0 && 0 <= i && i + sep.len() <= s.len() {
        seq![s.subrange(0, i)] + split_of(s.subrange(i + sep.len(), s.len() as int), sep)
    } else {
        seq![s]
    }
}

/// Relies on `str::to_lowercase`: the result depends on the characters alone.
#[verifier::external_body]
pub(crate) fn lowercase(s: &str) -> (r: String)
    ensures
        r@ == lower_of(s@),
{
    s.to_lowercase()
}

/// Relies on `str::contains` with a string pattern: true exactly when the
/// pattern occurs in the text.
#[verifier::external_body]
pub(crate) fn contains(s: &str, p: &str) -> (r: bool)
    ensures
        r == occurs_in(p@, s@),
{
    s.contains(p)
}

/// Relies on `str::trim`: leading and trailing whitespace removed.
#[verifier::external_body]
pub(crate) fn trim(s: &str) -> (r: String)
    ensures
        r@ == trim_of(s@),
{
    String::from(s.trim())
}

/// Relies on `str::replace`: with a non-empty pattern, its matches, found from
/// left to right without overlap, each replaced by `to`.
#[verifier::external_body]
pub(crate) fn replace(s: &str, from: &str, to: &str) -> (r: String)
    ensures
        from@.len() > 0 ==> r@ == replace_of(s@, from@, to@),
{
    s.replace(from, to)
}

/// Relies on `str::split` with a non-empty string separator: the pieces
/// between its matches, found from left to right without overlap, in order.
#[verifier::external_body]
pub(crate) fn split(s: &str, sep: &str) -> (r: Vec<String>)
    ensures
        sep@.len() > 0 ==> r@.map_values(|x: String| x@) == split_of(s@, sep@),
{
    s.split(sep).map(String::from).collect()
}

/// A text made of three texts, one after the other.
pub fn concat3(a: &str, b: &str, c: &str) -> (r: String)
    ensures
        r@ == a@ + b@ + c@,
{
    let mut s = String::from_str(a);
    s.append(b);
    s.append(c);
    s
}

/// `s` and `t` hold the same characters.
pub fn same_text(s: &str, t: &str) -> (r: bool)
    ensures
        r == (s@ == t@),
{
    let a = String::from_str(s);
    let b = String::from_str(t);
    a == b
}

} // verus!
