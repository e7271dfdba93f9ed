//! Character-level text utilities: turning strings into character vectors,
//! prefix and substring matching, whitespace tokenization, and the case
//! conversions the formatter needs.

use vstd::prelude::*;
use vstd::string::StrSliceExecFns;

verus! {

/// The characters treated as whitespace when splitting a message into
/// tokens (the Unicode `White_Space` set).
pub open spec fn is_space_c(c: char) -> bool {
    ||| c == ' '
    ||| c == '\t'
    ||| c == '\n'
    ||| c == '\u{b}'
    ||| c == '\u{c}'
    ||| c == '\r'
    ||| c == '\u{85}'
    ||| c == '\u{a0}'
    ||| c == '\u{1680}'
    ||| c == '\u{2000}'
    ||| c == '\u{2001}'
    ||| c == '\u{2002}'
    ||| c == '\u{2003}'
    ||| c == '\u{2004}'
    ||| c == '\u{2005}'
    ||| c == '\u{2006}'
    ||| c == '\u{2007}'
    ||| c == '\u{2008}'
    ||| c == '\u{2009}'
    ||| c == '\u{200a}'
    ||| c == '\u{2028}'
    ||| c == '\u{2029}'
    ||| c == '\u{202f}'
    ||| c == '\u{205f}'
    ||| c == '\u{3000}'
}

pub fn is_space(c: char) -> (r: bool)
    ensures
        r == is_space_c(c),
{
    c == ' ' || c == '\t' || c == '\n' || c == '\u{b}' || c == '\u{c}' || c == '\r' || c == '\u{85}'
        || c == '\u{a0}' || c == '\u{1680}' || c == '\u{2000}' || c == '\u{2001}' || c
        == '\u{2002}' || c == '\u{2003}' || c == '\u{2004}' || c == '\u{2005}' || c == '\u{2006}'
        || c == '\u{2007}' || c == '\u{2008}' || c == '\u{2009}' || c == '\u{200a}' || c
        == '\u{2028}' || c == '\u{2029}' || c == '\u{202f}' || c == '\u{205f}' || c == '\u{3000}'
}

/// All characters of a string, in order.
pub fn str_chars(s: &str) -> (r: Vec<char>)
    ensures
        r@ == s@,
{
    let n = s.unicode_len();
    let mut r: Vec<char> = Vec::new();
    let mut i: usize = 0;
    while i < n
        invariant
            i <= n,
            n == s@.len(),
            r@ == s@.take(i as int),
        decreases n - i,
    {
        r.push(s.get_char(i));
        proof {
            assert(s@.take(i as int).push(s@[i as int]) =~= s@.take(i + 1 as int));
        }
        i = i + 1;
    }
    proof {
        assert(s@.take(n as int) =~= s@);
    }
    r
}

/// Two character vectors hold the same characters.
pub fn chars_eq(a: &Vec<char>, b: &Vec<char>) -> (r: bool)
    ensures
        r == (a@ == b@),
{
    if a.len() != b.len() {
        return false;
    }
    let mut i: usize = 0;
    while i < a.len()
        invariant
            i <= a.len(),
            a.len() == b.len(),
            forall|k: int| 0 <= k < i ==> a@[k] == b@[k],
        decreases a.len() - i,
    {
        if a[i] != b[i] {
            return false;
        }
        i = i + 1;
    }
    proof {
        assert(a@ =~= b@);
    }
    true
}

/// Two strings hold the same characters.
pub fn str_eq(a: &str, b: &str) -> (r: bool)
    ensures
        r == (a@ == b@),
{
    let va = str_chars(a);
    let vb = str_chars(b);
    chars_eq(&va, &vb)
}

/// `s` begins with the prefix `p`.
pub open spec fn starts_with_s(s: Seq<char>, p: Seq<char>) -> bool {
    p.len() <= s.len() && s.take(p.len() as int) == p
}

pub fn starts_with(v: &Vec<char>, p: &Vec<char>) -> (r: bool)
    ensures
        r == starts_with_s(v@, p@),
{
    if p.len() > v.len() {
        return false;
    }
    let mut i: usize = 0;
    while i < p.len()
        invariant
            i <= p.len(),
            p.len() <= v.len(),
            forall|k: int| 0 <= k < i ==> v@[k] == p@[k],
        decreases p.len() - i,
    {
        if v[i] != p[i] {
            proof {
                assert(v@.take(p@.len() as int)[i as int] != p@[i as int]);
            }
            return false;
        }
        i = i + 1;
    }
    proof {
        assert(v@.take(p@.len() as int) =~= p@);
    }
    true
}

/// `p` occurs somewhere in `s` as a contiguous substring.
pub open spec fn contains_s(s: Seq<char>, p: Seq<char>) -> bool {
    exists|i: int| 0 <= i && i + p.len() <= s.len() && #[trigger] s.subrange(i, i + p.len()) == p
}

/// `p` occurs in `s` starting at position `at`.
fn matches_at(v: &Vec<char>, p: &Vec<char>, at: usize) -> (r: bool)
    requires
        at + p.len() <= v.len(),
    ensures
        r == (v@.subrange(at as int, at + p@.len()) == p@),
{
    let mut i: usize = 0;
    while i < p.len()
        invariant
            i <= p.len(),
            at + p.len() <= v.len(),
            forall|k: int| 0 <= k < i ==> v@[at + k] == p@[k],
        decreases p.len() - i,
    {
        if v[at + i] != p[i] {
            proof {
                assert(v@.subrange(at as int, at + p@.len())[i as int] != p@[i as int]);
            }
            return false;
        }
        i = i + 1;
    }
    proof {
        assert(v@.subrange(at as int, at + p@.len()) =~= p@);
    }
    true
}

pub fn contains_sub(v: &Vec<char>, p: &Vec<char>) -> (r: bool)
    ensures
        r == contains_s(v@, p@),
{
    if p.len() > v.len() {
        return false;
    }
    if p.len() == 0 {
        proof {
            assert(v@.subrange(0, 0 + p@.len() as int) =~= p@);
            assert(contains_s(v@, p@));
        }
        return true;
    }
    let last = v.len() - p.len();
    let mut i: usize = 0;
    while i <= last
        invariant
            i <= last + 1,
            last == v.len() - p.len(),
            1 <= p.len() <= v.len(),
            forall|k: int| 0 <= k < i ==> #[trigger] v@.subrange(k, k + p@.len()) != p@,
        decreases last + 1 - i,
    {
        if matches_at(v, p, i) {
            proof {
                assert(0 <= i as int && i as int + p@.len() <= v@.len() && v@.subrange(
                    i as int,
                    i as int + p@.len(),
                ) == p@);
            }
            return true;
        }
        i = i + 1;
    }
    false
}

/// The longest whitespace-free prefix of `s`.
pub open spec fn first_word(s: Seq<char>) -> Seq<char>
    decreases s.len(),
{
    if s.len() == 0 || is_space_c(s[0]) {
        Seq::empty()
    } else {
        seq![s[0]] + first_word(s.drop_first())
    }
}

pub proof fn lemma_first_word_len(s: Seq<char>)
    ensures
        first_word(s).len() <= s.len(),
        s.len() > 0 && !is_space_c(s[0]) ==> first_word(s).len() >= 1,
    decreases s.len(),
{
    if s.len() > 0 && !is_space_c(s[0]) {
        lemma_first_word_len(s.drop_first());
    }
}

/// The whitespace-delimited tokens of `s`, in order.
pub open spec fn tokens(s: Seq<char>) -> Seq<Seq<char>>
    decreases s.len(),
    via tokens_decreases
{
    if s.len() == 0 {
        Seq::empty()
    } else if is_space_c(s[0]) {
        tokens(s.drop_first())
    } else {
        seq![first_word(s)] + tokens(s.skip(first_word(s).len() as int))
    }
}

#[via_fn]
proof fn tokens_decreases(s: Seq<char>) {
    if s.len() > 0 && !is_space_c(s[0]) {
        lemma_first_word_len(s);
    }
}

/// A run of non-space characters followed by the string's end or a space is
/// exactly the first word.
proof fn lemma_first_word_is_run(s: Seq<char>, j: int)
    requires
        0 <= j <= s.len(),
        forall|k: int| 0 <= k < j ==> !is_space_c(s[k]),
        j == s.len() || is_space_c(s[j]),
    ensures
        first_word(s) == s.take(j),
    decreases j,
{
    if j == 0 {
        assert(first_word(s) =~= s.take(0));
    } else {
        lemma_first_word_is_run(s.drop_first(), j - 1);
        assert(seq![s[0]] + s.drop_first().take(j - 1) =~= s.take(j));
    }
}

/// The second whitespace-delimited token of `v`, if the message has at
/// least two tokens.
pub fn second_token(v: &Vec<char>) -> (r: Option<Vec<char>>)
    ensures
        match r {
            Option::None => tokens(v@).len() <= 1,
            Option::Some(w) => tokens(v@).len() >= 2 && w@ == tokens(v@)[1],
        },
{
    let n = v.len();
    let mut i: usize = 0;
    proof {
        assert(v@.skip(0) =~= v@);
    }
    while i < n && is_space(v[i])
        invariant
            i <= n,
            n == v@.len(),
            tokens(v@) == tokens(v@.skip(i as int)),
        decreases n - i,
    {
        proof {
            assert(v@.skip(i as int).drop_first() =~= v@.skip(i + 1 as int));
        }
        i = i + 1;
    }
    if i == n {
        proof {
            assert(v@.skip(n as int) =~= Seq::<char>::empty());
        }
        return Option::None;
    }
    let start1 = i;
    i = i + 1;
    while i < n && !is_space(v[i])
        invariant
            start1 < i <= n,
            n == v@.len(),
            forall|k: int| start1 <= k < i ==> !is_space_c(v@[k]),
        decreases n - i,
    {
        i = i + 1;
    }
    proof {
        lemma_first_word_is_run(v@.skip(start1 as int), i - start1);
        assert(v@.skip(start1 as int).skip(i - start1) =~= v@.skip(i as int));
    }
    let ghost w1 = first_word(v@.skip(start1 as int));
    assert(tokens(v@) == seq![w1] + tokens(v@.skip(i as int)));
    while i < n && is_space(v[i])
        invariant
            i <= n,
            n == v@.len(),
            tokens(v@) == seq![w1] + tokens(v@.skip(i as int)),
        decreases n - i,
    {
        proof {
            assert(v@.skip(i as int).drop_first() =~= v@.skip(i + 1 as int));
        }
        i = i + 1;
    }
    if i == n {
        proof {
            assert(v@.skip(n as int) =~= Seq::<char>::empty());
            assert(tokens(v@) =~= seq![w1]);
        }
        return Option::None;
    }
    let start2 = i;
    i = i + 1;
    while i < n && !is_space(v[i])
        invariant
            start2 < i <= n,
            n == v@.len(),
            forall|k: int| start2 <= k < i ==> !is_space_c(v@[k]),
        decreases n - i,
    {
        i = i + 1;
    }
    proof {
        lemma_first_word_is_run(v@.skip(start2 as int), i - start2);
    }
    let ghost w2 = first_word(v@.skip(start2 as int));
    assert(tokens(v@)[1] == w2);
    assert(w2 =~= v@.subrange(start2 as int, i as int));
    let mut w: Vec<char> = Vec::new();
    let mut k = start2;
    while k < i
        invariant
            start2 <= k <= i <= n,
            n == v@.len(),
            w@ == v@.subrange(start2 as int, k as int),
        decreases i - k,
    {
        w.push(v[k]);
        proof {
            assert(v@.subrange(start2 as int, k as int).push(v@[k as int]) =~= v@.subrange(
                start2 as int,
                k + 1 as int,
            ));
        }
        k = k + 1;
    }
    Option::Some(w)
}

/// What `str::to_lowercase` returns for a given character sequence.
pub uninterp spec fn lower_of(s: Seq<char>) -> Seq<char>;

/// Relies on `str::to_lowercase`: the Unicode lowercase conversion of the
/// characters, a function of the characters alone.
#[verifier::external_body]
pub(crate) fn lowercase_chars(v: &Vec<char>) -> (r: String)
    ensures
        r@ == lower_of(v@),
{
    let s: String = v.iter().collect();
    s.to_lowercase()
}

/// What `str::to_uppercase` returns for a given character sequence.
pub uninterp spec fn upper_of(s: Seq<char>) -> Seq<char>;

/// Relies on `str::to_uppercase`: the Unicode uppercase conversion of the
/// characters, a function of the characters alone.
#[verifier::external_body]
pub(crate) fn uppercase_str(s: &str) -> (r: String)
    ensures
        r@ == upper_of(s@),
{
    s.to_uppercase()
}

/// What `titlecase::titlecase` returns for a given character sequence.
pub uninterp spec fn title_of(s: Seq<char>) -> Seq<char>;

/// Relies on `titlecase::titlecase`: Gruber-style title casing, a function
/// of the characters alone.
#[verifier::external_body]
pub(crate) fn titlecase_str(s: &str) -> (r: String)
    ensures
        r@ == title_of(s@),
{
    titlecase::titlecase(s)
}

} // verus!
