//! The word list: loaded once from text, then queried for exact membership
//! and for how many words contain a fragment.
use vstd::prelude::*;
use crate::text::{chars_of, contains_fragment, has_fragment, same_chars};

verus! {

/// The character sequences of a list of words.
pub open spec fn views(v: Seq<Vec<char>>) -> Seq<Seq<char>> {
    v.map_values(|w: Vec<char>| w@)
}

/// The number of words in `words` that contain `f`.
pub open spec fn count_containing_spec(words: Seq<Seq<char>>, f: Seq<char>) -> nat
    decreases words.len(),
{
    if words.len() == 0 {
        0
    } else {
        count_containing_spec(words.drop_last(), f) + if has_fragment(words.last(), f) {
            1nat
        } else {
            0nat
        }
    }
}

/// The pieces of `s` between newline characters, in order; text without a
/// newline is one piece, and the empty text is one empty piece.
pub open spec fn split_lines(s: Seq<char>) -> Seq<Seq<char>>
    decreases s.len(),
{
    if s.len() == 0 {
        seq![Seq::empty()]
    } else if s.last() == '\n' {
        split_lines(s.drop_last()).push(Seq::empty())
    } else {
        let p = split_lines(s.drop_last());
        p.update(p.len() - 1, p.last().push(s.last()))
    }
}

/// A line without its trailing carriage return, if it has one.
pub open spec fn strip_cr(l: Seq<char>) -> Seq<char> {
    if l.len() > 0 && l.last() == '\r' {
        l.drop_last()
    } else {
        l
    }
}

/// The words that a word list in text form holds: one per line, trailing
/// carriage returns removed.
pub open spec fn words_of(s: Seq<char>) -> Seq<Seq<char>> {
    split_lines(s).map_values(|l: Seq<char>| strip_cr(l))
}

proof fn lemma_split_lines_nonempty(s: Seq<char>)
    ensures
        split_lines(s).len() >= 1,
    decreases s.len(),
{
    if s.len() > 0 {
        lemma_split_lines_nonempty(s.drop_last());
    }
}

proof fn lemma_views_push(v: Seq<Vec<char>>, x: Vec<char>)
    ensures
        views(v.push(x)) == views(v).push(x@),
{
    assert(views(v.push(x)) =~= views(v).push(x@));
}

proof fn lemma_strip_push(p: Seq<Seq<char>>)
    requires
        p.len() >= 1,
    ensures
        p.map_values(|l: Seq<char>| strip_cr(l)) == p.drop_last().map_values(
            |l: Seq<char>| strip_cr(l),
        ).push(strip_cr(p.last())),
{
    assert(p.map_values(|l: Seq<char>| strip_cr(l)) =~= p.drop_last().map_values(
        |l: Seq<char>| strip_cr(l),
    ).push(strip_cr(p.last())));
}

/// An ordered list of words, each a sequence of characters.
pub struct Dictionary {
    words: Vec<Vec<char>>,
}

impl View for Dictionary {
    type V = Seq<Seq<char>>;

    closed spec fn view(&self) -> Seq<Seq<char>> {
        views(self.words@)
    }
}

fn strip_trailing_cr(l: Vec<char>) -> (r: Vec<char>)
    ensures
        r@ == strip_cr(l@),
{
    let mut l = l;
    if l.len() > 0 && l[l.len() - 1] == '\r' {
        l.pop();
    }
    l
}

impl Dictionary {
    /// Reads a word list: the text is split at each newline, and a carriage
    /// return that ends a line is dropped.
    pub fn load(raw: &str) -> (d: Dictionary)
        ensures
            d@ == words_of(raw@),
    {
        let s = chars_of(raw);
        let mut words: Vec<Vec<char>> = Vec::new();
        let mut cur: Vec<char> = Vec::new();
        let mut i: usize = 0;
        proof {
            assert(s@.subrange(0, 0) =~= Seq::<char>::empty());
        }
        while i < s.len()
            invariant
                i <= s.len(),
                split_lines(s@.subrange(0, i as int)).len() >= 1,
                views(words@) == split_lines(s@.subrange(0, i as int)).drop_last().map_values(|l: Seq<char>| strip_cr(l)),
                words@.len() + 1 == split_lines(s@.subrange(0, i as int)).len(),
                cur@ == split_lines(s@.subrange(0, i as int)).last(),
            decreases s.len() - i,
        {
            let ghost pre = s@.subrange(0, i as int);
            let ghost post = s@.subrange(0, i + 1);
            proof {
                assert(post.drop_last() =~= pre);
                lemma_split_lines_nonempty(pre);
            }
            let c = s[i];
            proof {
                lemma_split_lines_nonempty(post);
            }
            let ghost old_words = words@;
            let ghost old_cur = cur@;
            if c == '\n' {
                let line = strip_trailing_cr(cur);
                words.push(line);
                cur = Vec::new();
                proof {
                    let p = split_lines(pre);
                    assert(split_lines(post) == p.push(Seq::empty()));
                    assert(split_lines(post).drop_last() =~= p);
                    lemma_views_push(old_words, line);
                    lemma_strip_push(p);
                }
            } else {
                cur.push(c);
                proof {
                    let p = split_lines(pre);
                    assert(split_lines(post) == p.update(p.len() - 1, p.last().push(c)));
                    assert(split_lines(post).drop_last() =~= p.drop_last());
                    assert(cur@ =~= split_lines(post).last());
                }
            }
            i += 1;
        }
        proof {
            assert(s@.subrange(0, s.len() as int) =~= raw@);
        }
        let ghost old_words = words@;
        let line = strip_trailing_cr(cur);
        words.push(line);
        let d = Dictionary { words };
        proof {
            lemma_views_push(old_words, line);
            lemma_strip_push(split_lines(raw@));
        }
        d
    }

    /// The number of words.
    pub fn len(&self) -> (n: usize)
        ensures
            n == self@.len(),
    {
        self.words.len()
    }

    /// Whether `word` is one of the words, compared character by character
    /// (so case matters).
    pub fn contains_exact(&self, word: &str) -> (r: bool)
        ensures
            r == self@.contains(word@),
    {
        let w = chars_of(word);
        let mut i: usize = 0;
        while i < self.words.len()
            invariant
                i <= self.words.len(),
                w@ == word@,
                forall|k: int| 0 <= k < i ==> self@[k] != word@,
            decreases self.words.len() - i,
        {
            if same_chars(&self.words[i], &w) {
                assert(self@[i as int] == word@);
                return true;
            }
            i += 1;
        }
        false
    }

    /// How many words contain `fragment` as a contiguous substring.
    pub fn count_containing(&self, fragment: &str) -> (n: usize)
        ensures
            n == count_containing_spec(self@, fragment@),
    {
        let f = chars_of(fragment);
        let mut n: usize = 0;
        let mut i: usize = 0;
        while i < self.words.len()
            invariant
                i <= self.words.len(),
                f@ == fragment@,
                n == count_containing_spec(self@.subrange(0, i as int), fragment@),
                n <= i,
            decreases self.words.len() - i,
        {
            proof {
                assert(self@.subrange(0, i + 1).drop_last() =~= self@.subrange(0, i as int));
            }
            if contains_fragment(&self.words[i], &f) {
                n += 1;
            }
            i += 1;
        }
        assert(self@.subrange(0, self.words.len() as int) =~= self@);
        n
    }
}

} // verus!
