use vstd::prelude::*;

verus! {

/// Whether `pat` occurs in `s` starting at position `i`.
pub open spec fn occurs_at(s: Seq<char>, pat: Seq<char>, i: int) -> bool {
    0 <= i && i + pat.len() <= s.len() && s.subrange(i, i + pat.len()) == pat
}

/// Whether `i` is the first position at which `pat` occurs in `s`.
pub open spec fn first_occurrence(s: Seq<char>, pat: Seq<char>, i: int) -> bool {
    occurs_at(s, pat, i) && forall|j: int| 0 <= j < i ==> !occurs_at(s, pat, j)
}

/// `s` split around the first occurrence of `pat`: the part before it and the
/// part after it; `None` when `pat` does not occur in `s`.
pub open spec fn split_first(s: Seq<char>, pat: Seq<char>) -> Option<(Seq<char>, Seq<char>)> {
    if exists|i: int| first_occurrence(s, pat, i) {
        let i = choose|i: int| first_occurrence(s, pat, i);
        Some((s.subrange(0, i), s.subrange(i + pat.len(), s.len() as int)))
    } else {
        None
    }
}

/// There is at most one first occurrence.
pub proof fn lemma_first_occurrence_unique(s: Seq<char>, pat: Seq<char>, i: int, k: int)
    requires
        first_occurrence(s, pat, i),
        first_occurrence(s, pat, k),
    ensures
        i == k,
{
}

/// Calls `str::split_once`, which splits `s` on the first occurrence of
/// `delimiter`, returning the text before and after it, or `None` when
/// `delimiter` does not occur. Claimed exactly that, over the characters of
/// `s`.
#[verifier::external_body]
pub(crate) fn split_once<'a>(s: &'a str, delimiter: &str) -> (res: Option<(&'a str, &'a str)>)
    ensures
        match res {
            Some((before, after)) => first_occurrence(s@, delimiter@, before@.len() as int)
                && s@ == before@ + delimiter@ + after@,
            None => forall|i: int| !occurs_at(s@, delimiter@, i),
        },
{
    s.split_once(delimiter)
}

/// Calls `str::eq`: whether the two strings hold the same characters.
#[verifier::external_body]
pub(crate) fn str_eq(a: &str, b: &str) -> (res: bool)
    ensures
        res == (a@ == b@),
{
    a == b
}

/// Calls `str::contains` with a character pattern: whether `s` holds `c`.
#[verifier::external_body]
pub(crate) fn contains_char(s: &str, c: char) -> (res: bool)
    ensures
        res == s@.contains(c),
{
    s.contains(c)
}

/// `s` split around its first "://": the scheme and the rest.
pub fn split_scheme<'a>(s: &'a str) -> (res: Option<(&'a str, &'a str)>)
    ensures
        match split_first(s@, "://"@) {
            Some((scheme, rest)) => res matches Some((a, b)) && a@ == scheme && b@ == rest,
            None => res is None,
        },
{
    let res = split_once(s, "://");
    proof {
        reveal_strlit("://");
        match res {
            Some((a, b)) => {
                let i = a@.len() as int;
                assert(first_occurrence(s@, "://"@, i));
                let k = choose|k: int| first_occurrence(s@, "://"@, k);
                lemma_first_occurrence_unique(s@, "://"@, i, k);
                assert(s@.subrange(0, i) =~= a@);
                assert(s@.subrange(i + 3, s@.len() as int) =~= b@);
            },
            None => {},
        }
    }
    res
}

} // verus!
