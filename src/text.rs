//! Character-level helpers: fragment search over character sequences and the
//! few `String` operations that the engine needs.
use vstd::prelude::*;

verus! {

/// `f` occurs in `w` starting at position `i`.
pub open spec fn occurs_at(w: Seq<char>, f: Seq<char>, i: int) -> bool {
    0 <= i && i + f.len() <= w.len() && w.subrange(i, i + f.len()) == f
}

/// `f` is a contiguous substring of `w`.
pub open spec fn has_fragment(w: Seq<char>, f: Seq<char>) -> bool {
    exists|i: int| occurs_at(w, f, i)
}

/// What `str::to_uppercase` returns for a string with these characters.
pub uninterp spec fn upper_of(s: Seq<char>) -> Seq<char>;

/// Relies on `str::to_uppercase`: its result depends on the characters of
/// `s` alone, and the empty string stays empty.
#[verifier::external_body]
pub(crate) fn uppercase(s: &str) -> (r: String)
    ensures
        r@ == upper_of(s@),
        s@.len() == 0 ==> r@.len() == 0,
{
    s.to_uppercase()
}

/// Relies on `String::push`: appends one character at the end.
#[verifier::external_body]
pub(crate) fn push_char(s: &mut String, c: char)
    ensures
        final(s)@ == old(s)@.push(c),
{
    s.push(c)
}

/// Relies on `String::pop`: removes and returns the last character, if any.
#[verifier::external_body]
pub(crate) fn pop_char(s: &mut String) -> (r: Option<char>)
    ensures
        old(s)@.len() == 0 ==> r is None && final(s)@ == old(s)@,
        old(s)@.len() > 0 ==> r == Some(old(s)@.last()) && final(s)@ == old(s)@.drop_last(),
{
    s.pop()
}

/// The characters of `s`, in order.
pub fn chars_of(s: &str) -> (v: Vec<char>)
    ensures
        v@ == s@,
{
    let mut v: Vec<char> = Vec::new();
    for c in it: s.chars()
        invariant
            it.seq() == s@,
            v@ == it.seq().subrange(0, it.index() as int),
    {
        v.push(c);
    }
    v
}

/// Whether the two character sequences are equal.
pub fn same_chars(a: &Vec<char>, b: &Vec<char>) -> (r: bool)
    ensures
        r == (a@ == b@),
{
    if a.len() != b.len() {
        return false;
    }
    let mut i: usize = 0;
    while i < a.len()
        invariant
            i <= a.len(),
            a.len() == b.len(),
            forall|k: int| 0 <= k < i ==> a@[k] == b@[k],
        decreases a.len() - i,
    {
        if a[i] != b[i] {
            return false;
        }
        i += 1;
    }
    assert(a@ =~= b@);
    true
}

/// Whether `f` occurs in `w` starting at position `i`.
fn matches_at(w: &Vec<char>, f: &Vec<char>, i: usize) -> (r: bool)
    requires
        i + f.len() <= w.len(),
    ensures
        r == occurs_at(w@, f@, i as int),
{
    let mut j: usize = 0;
    while j < f.len()
        invariant
            j <= f.len(),
            i + f.len() <= w.len(),
            forall|k: int| 0 <= k < j ==> w@[i + k] == f@[k],
        decreases f.len() - j,
    {
        if w[i + j] != f[j] {
            assert(w@.subrange(i as int, i + f.len())[j as int] != f@[j as int]);
            return false;
        }
        j += 1;
    }
    assert(w@.subrange(i as int, i + f.len()) =~= f@);
    true
}

/// Whether `f` is a contiguous substring of `w`.
pub fn contains_fragment(w: &Vec<char>, f: &Vec<char>) -> (r: bool)
    ensures
        r == has_fragment(w@, f@),
{
    if f.len() > w.len() {
        assert(forall|i: int| !occurs_at(w@, f@, i));
        return false;
    }
    let last = w.len() - f.len();
    let mut i: usize = 0;
    while i <= last
        invariant
            f.len() <= w.len(),
            last == w.len() - f.len(),
            i <= last,
            forall|k: int| 0 <= k < i ==> !occurs_at(w@, f@, k),
        ensures
            forall|k: int| 0 <= k <= last ==> !occurs_at(w@, f@, k),
        decreases last - i,
    {
        if matches_at(w, f, i) {
            return true;
        }
        if i == last {
            break;
        }
        i += 1;
    }
    assert(forall|k: int| !occurs_at(w@, f@, k));
    false
}

} // verus!
