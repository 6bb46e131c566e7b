//! Prompt generation: random letter fragments that at least a given number
//! of dictionary words contain.
use vstd::prelude::*;
use crate::dictionary::{count_containing_spec, Dictionary};
use crate::text::push_char;

verus! {

/// Number of letters a prompt is drawn from, `A` to `Z`.
pub const ALPHABET_LEN: u8 = 26;

/// A three-letter prompt is chosen once in this many draws; otherwise the
/// prompt has two letters.
pub const LONG_PROMPT_ODDS: u8 = 5;

/// Random candidates tried before the fragments are searched in order.
pub const MAX_RANDOM_CANDIDATES: usize = 2000;

/// The `d`-th letter of the alphabet, counting from 0 for `A`.
pub open spec fn letter(d: u8) -> char {
    ((65 + d) as u8) as char
}

/// An uppercase letter from `A` to `Z`.
pub open spec fn is_letter(c: char) -> bool {
    'A' <= c && c <= 'Z'
}

/// The shape of every prompt: two or three uppercase letters.
pub open spec fn is_prompt_form(p: Seq<char>) -> bool {
    &&& (p.len() == 2 || p.len() == 3)
    &&& forall|i: int| 0 <= i < p.len() ==> is_letter(#[trigger] p[i])
}

/// Some prompt is contained by at least `min` of `words`.
pub open spec fn supports(words: Seq<Seq<char>>, min: nat) -> bool {
    exists|p: Seq<char>| is_prompt_form(p) && count_containing_spec(words, p) >= min
}

/// The fragment spelled by a sequence of letter draws.
pub open spec fn fragment_of(draws: Seq<u8>) -> Seq<char> {
    draws.map_values(|d: u8| letter(d))
}

/// The two-letter fragment with letters `x` and `y`.
pub open spec fn pair(x: u8, y: u8) -> Seq<char> {
    seq![letter(x), letter(y)]
}

/// The three-letter fragment with letters `x`, `y` and `z`.
pub open spec fn triple(x: u8, y: u8, z: u8) -> Seq<char> {
    seq![letter(x), letter(y), letter(z)]
}

/// Fragment `pair(x2, y2)` comes before `pair(x, y)` in alphabetical order.
pub open spec fn pair_before(x2: u8, y2: u8, x: u8, y: u8) -> bool {
    x2 < x || (x2 == x && y2 < y)
}

/// Fragment `triple(x2, y2, z2)` comes before `triple(x, y, z)` in
/// alphabetical order.
pub open spec fn triple_before(x2: u8, y2: u8, z2: u8, x: u8, y: u8, z: u8) -> bool {
    x2 < x || (x2 == x && y2 < y) || (x2 == x && y2 == y && z2 < z)
}

/// `p` is the first prompt contained by at least `min` of `words`, when all
/// two-letter fragments are taken in alphabetical order and then all
/// three-letter ones.
pub open spec fn first_common(words: Seq<Seq<char>>, min: nat, p: Seq<char>) -> bool {
    ||| exists|x: u8, y: u8|
        #![trigger pair(x, y)]
        x < 26 && y < 26 && p == pair(x, y) && forall|x2: u8, y2: u8|
            y2 < 26 && pair_before(x2, y2, x, y) ==> count_containing_spec(
                words,
                #[trigger] pair(x2, y2),
            ) < min
    ||| exists|x: u8, y: u8, z: u8|
        #![trigger triple(x, y, z)]
        x < 26 && y < 26 && z < 26 && p == triple(x, y, z) && (forall|x2: u8, y2: u8|
            x2 < 26 && y2 < 26 ==> count_containing_spec(words, #[trigger] pair(x2, y2)) < min)
            && forall|x2: u8, y2: u8, z2: u8|
            y2 < 26 && z2 < 26 && triple_before(x2, y2, z2, x, y, z) ==> count_containing_spec(
                words,
                #[trigger] triple(x2, y2, z2),
            ) < min
}

proof fn lemma_letter_index(c: char)
    requires
        is_letter(c),
    ensures
        ((c as u32 - 65) as u8) < 26,
        letter((c as u32 - 65) as u8) == c,
{
}

/// Relies on `rand::thread_rng` and `rand::Rng::gen_range`: a value drawn
/// from `0..n`; `gen_range` panics on an empty range.
#[verifier::external_body]
fn random_below(n: u8) -> (r: u8)
    requires
        n > 0,
    ensures
        r < n,
{
    rand::Rng::gen_range(&mut rand::thread_rng(), 0..n)
}

/// The `d`-th letter of the alphabet.
pub fn letter_of(d: u8) -> (c: char)
    requires
        d < ALPHABET_LEN,
    ensures
        c == letter(d),
        is_letter(c),
{
    (65u8 + d) as char
}

/// The fragment spelled by `draws`, each draw naming a letter.
pub fn fragment_from_draws(draws: &Vec<u8>) -> (f: String)
    requires
        forall|i: int| 0 <= i < draws.len() ==> draws@[i] < ALPHABET_LEN,
    ensures
        f@ == fragment_of(draws@),
{
    let mut f = String::new();
    let mut i: usize = 0;
    while i < draws.len()
        invariant
            i <= draws.len(),
            forall|k: int| 0 <= k < draws.len() ==> draws@[k] < ALPHABET_LEN,
            f@ == fragment_of(draws@.subrange(0, i as int)),
        decreases draws.len() - i,
    {
        let c = letter_of(draws[i]);
        push_char(&mut f, c);
        i += 1;
        assert(f@ =~= fragment_of(draws@.subrange(0, i as int)));
    }
    assert(draws@.subrange(0, draws.len() as int) =~= draws@);
    f
}

/// Whether `candidate` is contained by at least `min_words` words.
pub fn is_common_enough(dictionary: &Dictionary, candidate: &str, min_words: usize) -> (r: bool)
    ensures
        r == (count_containing_spec(dictionary@, candidate@) >= min_words),
{
    dictionary.count_containing(candidate) >= min_words
}

/// The first prompt, taking all two-letter fragments in alphabetical order
/// and then all three-letter ones, that at least `min_words` words contain;
/// `None` when there is none.
pub fn first_supported(dictionary: &Dictionary, min_words: usize) -> (r: Option<String>)
    ensures
        r is None <==> !supports(dictionary@, min_words as nat),
        r matches Some(p) ==> is_prompt_form(p@) && count_containing_spec(dictionary@, p@)
            >= min_words && first_common(dictionary@, min_words as nat, p@),
{
    let mut a: u8 = 0;
    while a < ALPHABET_LEN
        invariant
            a <= ALPHABET_LEN,
            forall|x: u8, y: u8|
                x < a && y < ALPHABET_LEN ==> count_containing_spec(
                    dictionary@,
                    #[trigger] pair(x, y),
                ) < min_words,
        decreases ALPHABET_LEN - a,
    {
        let mut b: u8 = 0;
        while b < ALPHABET_LEN
            invariant
                a < ALPHABET_LEN,
                b <= ALPHABET_LEN,
                forall|x: u8, y: u8|
                    x < a && y < ALPHABET_LEN ==> count_containing_spec(
                        dictionary@,
                        #[trigger] pair(x, y),
                    ) < min_words,
                forall|y: u8|
                    y < b ==> count_containing_spec(
                        dictionary@,
                        #[trigger] pair(a, y),
                    ) < min_words,
            decreases ALPHABET_LEN - b,
        {
            let draws = vec![a, b];
            let f = fragment_from_draws(&draws);
            proof {
                assert(fragment_of(draws@) =~= pair(a, b));
            }
            if is_common_enough(dictionary, &f, min_words) {
                proof {
                    assert(is_prompt_form(f@));
                    assert(forall|x2: u8, y2: u8|
                        y2 < 26 && pair_before(x2, y2, a, b) ==> count_containing_spec(
                            dictionary@,
                            #[trigger] pair(x2, y2),
                        ) < min_words);
                    assert(f@ == pair(a, b));
                }
                return Some(f);
            }
            b += 1;
        }
        a += 1;
    }
    let mut a: u8 = 0;
    while a < ALPHABET_LEN
        invariant
            a <= ALPHABET_LEN,
            forall|x: u8, y: u8|
                x < ALPHABET_LEN && y < ALPHABET_LEN ==> count_containing_spec(
                    dictionary@,
                    #[trigger] pair(x, y),
                ) < min_words,
            forall|x: u8, y: u8, z: u8|
                x < a && y < ALPHABET_LEN && z < ALPHABET_LEN ==> count_containing_spec(
                    dictionary@,
                    #[trigger] triple(x, y, z),
                ) < min_words,
        decreases ALPHABET_LEN - a,
    {
        let mut b: u8 = 0;
        while b < ALPHABET_LEN
            invariant
                a < ALPHABET_LEN,
                b <= ALPHABET_LEN,
                forall|x: u8, y: u8|
                    x < ALPHABET_LEN && y < ALPHABET_LEN ==> count_containing_spec(
                        dictionary@,
                        #[trigger] pair(x, y),
                    ) < min_words,
                forall|x: u8, y: u8, z: u8|
                    x < a && y < ALPHABET_LEN && z < ALPHABET_LEN ==> count_containing_spec(
                        dictionary@,
                        #[trigger] triple(x, y, z),
                    ) < min_words,
                forall|y: u8, z: u8|
                    y < b && z < ALPHABET_LEN ==> count_containing_spec(
                        dictionary@,
                        #[trigger] triple(a, y, z),
                    ) < min_words,
            decreases ALPHABET_LEN - b,
        {
            let mut c: u8 = 0;
            while c < ALPHABET_LEN
                invariant
                    a < ALPHABET_LEN,
                    b < ALPHABET_LEN,
                    c <= ALPHABET_LEN,
                    forall|x: u8, y: u8|
                        x < ALPHABET_LEN && y < ALPHABET_LEN ==> count_containing_spec(
                            dictionary@,
                            #[trigger] pair(x, y),
                        ) < min_words,
                    forall|x: u8, y: u8, z: u8|
                        x < a && y < ALPHABET_LEN && z < ALPHABET_LEN ==> count_containing_spec(
                            dictionary@,
                            #[trigger] triple(x, y, z),
                        ) < min_words,
                    forall|y: u8, z: u8|
                        y < b && z < ALPHABET_LEN ==> count_containing_spec(
                            dictionary@,
                            #[trigger] triple(a, y, z),
                        ) < min_words,
                    forall|z: u8|
                        z < c ==> count_containing_spec(
                            dictionary@,
                            #[trigger] triple(a, b, z),
                        ) < min_words,
                decreases ALPHABET_LEN - c,
            {
                let draws = vec![a, b, c];
                let f = fragment_from_draws(&draws);
                proof {
                    assert(fragment_of(draws@) =~= triple(a, b, c));
                }
                if is_common_enough(dictionary, &f, min_words) {
                    proof {
                        assert(is_prompt_form(f@));
                        assert(forall|x2: u8, y2: u8, z2: u8|
                            y2 < 26 && z2 < 26 && triple_before(x2, y2, z2, a, b, c)
                                ==> count_containing_spec(
                                dictionary@,
                                #[trigger] triple(x2, y2, z2),
                            ) < min_words);
                        assert(f@ == triple(a, b, c));
                    }
                    return Some(f);
                }
                c += 1;
            }
            b += 1;
        }
        a += 1;
    }
    proof {
        assert forall|p: Seq<char>| is_prompt_form(p) implies count_containing_spec(
            dictionary@,
            p,
        ) < min_words by {
            lemma_letter_index(p[0]);
            lemma_letter_index(p[1]);
            let x = (p[0] as u32 - 65) as u8;
            let y = (p[1] as u32 - 65) as u8;
            if p.len() == 2 {
                assert(pair(x, y) =~= p);
            } else {
                lemma_letter_index(p[2]);
                let z = (p[2] as u32 - 65) as u8;
                assert(triple(x, y, z) =~= p);
            }
        }
    }
    None
}

/// The length of a prompt for a length draw from `0..LONG_PROMPT_ODDS`:
/// three letters for the draw 0, two otherwise.
pub open spec fn prompt_len(coin: u8) -> nat {
    if coin == 0 {
        3
    } else {
        2
    }
}

/// The fragment that one candidate's letter draws spell: its first
/// `prompt_len(coin)` letters.
pub open spec fn candidate_fragment(coin: u8, letters: Seq<u8>) -> Seq<char> {
    fragment_of(letters.subrange(0, prompt_len(coin) as int))
}

/// Each candidate holds at least `prompt_len(coin)` letter draws, all in
/// range.
pub open spec fn well_drawn(coin: u8, candidates: Seq<Vec<u8>>) -> bool {
    forall|k: int|
        0 <= k < candidates.len() ==> (#[trigger] candidates[k])@.len() >= prompt_len(coin)
            && forall|i: int| 0 <= i < candidates[k]@.len() ==> candidates[k]@[i] < ALPHABET_LEN
}

/// Decides on one random candidate: the fragment spelled by the first
/// `prompt_len(coin)` letter draws, kept when at least `min_words` words
/// contain it.
pub fn candidate_from_draws(
    dictionary: &Dictionary,
    min_words: usize,
    coin: u8,
    letters: &Vec<u8>,
) -> (r: Option<String>)
    requires
        letters.len() >= prompt_len(coin),
        forall|i: int| 0 <= i < letters.len() ==> letters@[i] < ALPHABET_LEN,
    ensures
        ({
            let f = candidate_fragment(coin, letters@);
            &&& r is Some <==> count_containing_spec(dictionary@, f) >= min_words
            &&& r matches Some(p) ==> p@ == f
        }),
{
    let len: usize = if coin == 0 {
        3
    } else {
        2
    };
    let mut draws: Vec<u8> = Vec::new();
    let mut i: usize = 0;
    while i < len
        invariant
            i <= len,
            len == prompt_len(coin),
            letters.len() >= len,
            draws@ == letters@.subrange(0, i as int),
        decreases len - i,
    {
        draws.push(letters[i]);
        i += 1;
        assert(draws@ =~= letters@.subrange(0, i as int));
    }
    let f = fragment_from_draws(&draws);
    if is_common_enough(dictionary, &f, min_words) {
        Some(f)
    } else {
        None
    }
}

/// Tries the drawn candidates in order, all of the length that `coin` gives,
/// and returns the fragment of the first one that at least `min_words` words
/// contain; `None` when none does.
pub fn first_accepted(
    dictionary: &Dictionary,
    min_words: usize,
    coin: u8,
    candidates: &Vec<Vec<u8>>,
) -> (r: Option<String>)
    requires
        well_drawn(coin, candidates@),
    ensures
        r is None <==> forall|k: int|
            0 <= k < candidates.len() ==> count_containing_spec(
                dictionary@,
                candidate_fragment(coin, (#[trigger] candidates@[k])@),
            ) < min_words,
        r matches Some(p) ==> exists|k: int|
            0 <= k < candidates.len() && p@ == candidate_fragment(coin, (#[trigger] candidates@[k])@)
                && count_containing_spec(dictionary@, p@) >= min_words && forall|j: int|
                0 <= j < k ==> count_containing_spec(
                    dictionary@,
                    candidate_fragment(coin, (#[trigger] candidates@[j])@),
                ) < min_words,
{
    let mut k: usize = 0;
    while k < candidates.len()
        invariant
            k <= candidates.len(),
            well_drawn(coin, candidates@),
            forall|j: int|
                0 <= j < k ==> count_containing_spec(
                    dictionary@,
                    candidate_fragment(coin, (#[trigger] candidates@[j])@),
                ) < min_words,
        decreases candidates.len() - k,
    {
        proof {
            assert(candidates@[k as int]@.len() >= prompt_len(coin));
        }
        match candidate_from_draws(dictionary, min_words, coin, &candidates[k]) {
            Some(p) => {
                return Some(p);
            },
            None => {},
        }
        k += 1;
    }
    None
}

/// A random prompt that at least `min_words` words of `dictionary` contain.
/// Its length is drawn once (three letters one time in `LONG_PROMPT_ODDS`,
/// else two), then up to `MAX_RANDOM_CANDIDATES` candidates of that length,
/// with letters drawn uniformly from `A` to `Z`, are tried in order and the
/// first common enough one is taken. When none is, the first common enough
/// fragment in alphabetical order is taken, which exists by the
/// precondition.
pub fn generate_prompt(dictionary: &Dictionary, min_words: usize) -> (p: String)
    requires
        supports(dictionary@, min_words as nat),
    ensures
        is_prompt_form(p@),
        count_containing_spec(dictionary@, p@) >= min_words,
{
    let coin = random_below(LONG_PROMPT_ODDS);
    let len: usize = if coin == 0 {
        3
    } else {
        2
    };
    let mut candidates: Vec<Vec<u8>> = Vec::new();
    while candidates.len() < MAX_RANDOM_CANDIDATES
        invariant
            len == prompt_len(coin),
            well_drawn(coin, candidates@),
        decreases MAX_RANDOM_CANDIDATES - candidates.len(),
    {
        let mut letters: Vec<u8> = Vec::new();
        while letters.len() < len
            invariant
                len == prompt_len(coin),
                letters.len() <= len,
                forall|i: int| 0 <= i < letters.len() ==> letters@[i] < ALPHABET_LEN,
            decreases len - letters.len(),
        {
            let d = random_below(ALPHABET_LEN);
            letters.push(d);
        }
        let ghost before = candidates@;
        candidates.push(letters);
        proof {
            assert forall|k: int| 0 <= k < candidates@.len() implies (#[trigger] candidates@[k])@.len()
                >= prompt_len(coin) && forall|i: int|
                0 <= i < candidates@[k]@.len() ==> candidates@[k]@[i] < ALPHABET_LEN by {
                if k < before.len() {
                    assert(before[k] == candidates@[k]);
                }
            }
        }
    }
    match first_accepted(dictionary, min_words, coin, &candidates) {
        Some(p) => {
            proof {
                let k = choose|k: int|
                    0 <= k < candidates.len() && p@ == candidate_fragment(
                        coin,
                        (#[trigger] candidates@[k])@,
                    ) && count_containing_spec(dictionary@, p@) >= min_words && forall|j: int|
                        0 <= j < k ==> count_containing_spec(
                            dictionary@,
                            candidate_fragment(coin, (#[trigger] candidates@[j])@),
                        ) < min_words;
                let f = candidates@[k]@.subrange(0, prompt_len(coin) as int);
                assert forall|i: int| 0 <= i < p@.len() implies is_letter(#[trigger] p@[i]) by {
                    assert(f[i] < ALPHABET_LEN);
                }
            }
            p
        },
        None => match first_supported(dictionary, min_words) {
            Some(p) => p,
            None => {
                proof {
                    assert(false);
                }
                String::new()
            },
        },
    }
}

} // verus!
