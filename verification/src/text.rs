//! Character-level helpers shared by the rest of the crate.

use vstd::prelude::*;

verus! {

/// Whether `c` is one of the ten ASCII decimal digits.
pub open spec fn is_digit(c: char) -> bool {
    '0' <= c && c <= '9'
}

/// The number that the decimal digit `c` stands for.
pub open spec fn digit_value(c: char) -> nat
    recommends
        is_digit(c),
{
    (c as int - '0' as int) as nat
}

/// The number written by the decimal digits `digits`, most significant first.
pub open spec fn decimal_value(digits: Seq<char>) -> nat
    decreases digits.len(),
{
    if digits.len() == 0 {
        0
    } else {
        10 * decimal_value(digits.drop_last()) + digit_value(digits.last())
    }
}

/// How many decimal digits `s` starts with.
pub open spec fn digit_prefix_len(s: Seq<char>) -> nat
    decreases s.len(),
{
    if s.len() > 0 && is_digit(s[0]) {
        1 + digit_prefix_len(s.drop_first())
    } else {
        0
    }
}

/// The digit run that `s` starts with lies within `s`, holds digits only, and
/// ends before a character that is no digit, if it ends before the end.
pub proof fn lemma_digit_prefix_len(s: Seq<char>)
    ensures
        digit_prefix_len(s) <= s.len(),
        forall|i: int| 0 <= i < digit_prefix_len(s) ==> is_digit(#[trigger] s[i]),
        digit_prefix_len(s) < s.len() ==> !is_digit(s[digit_prefix_len(s) as int]),
    decreases s.len(),
{
    if s.len() > 0 && is_digit(s[0]) {
        let rest = s.drop_first();
        lemma_digit_prefix_len(rest);
        assert forall|i: int| 0 <= i < digit_prefix_len(s) implies is_digit(#[trigger] s[i]) by {
            if i > 0 {
                assert(s[i] == rest[i - 1]);
            }
        }
        if digit_prefix_len(s) < s.len() {
            assert(s[digit_prefix_len(s) as int] == rest[digit_prefix_len(rest) as int]);
        }
    }
}

/// The length of the digit run that `s` starts with is `run`, where the first
/// `run` characters are digits and the next one, if any, is none.
pub proof fn lemma_digit_prefix_ends(s: Seq<char>, run: nat)
    requires
        run <= s.len(),
        forall|j: int| 0 <= j < run ==> is_digit(#[trigger] s[j]),
        run < s.len() ==> !is_digit(s[run as int]),
    ensures
        digit_prefix_len(s) == run,
    decreases run,
{
    if run > 0 {
        let rest = s.drop_first();
        assert forall|j: int| 0 <= j < run - 1 implies is_digit(#[trigger] rest[j]) by {
            assert(rest[j] == s[j + 1]);
        }
        lemma_digit_prefix_ends(rest, (run - 1) as nat);
    }
}

/// A longer run of digits writes no smaller a number.
pub proof fn lemma_decimal_value_grows(s: Seq<char>, shorter: int, longer: int)
    requires
        0 <= shorter <= longer <= s.len(),
    ensures
        decimal_value(s.take(shorter)) <= decimal_value(s.take(longer)),
    decreases longer - shorter,
{
    if shorter < longer {
        lemma_decimal_value_grows(s, shorter, longer - 1);
        assert(s.take(longer).drop_last() == s.take(longer - 1));
    }
}

/// `n` copies of the digit zero.
pub open spec fn zeros(n: nat) -> Seq<char> {
    Seq::new(n, |i: int| '0')
}

/// How many characters follow the first `'.'` of `s`; `None` where `s` holds no `'.'`.
pub open spec fn fraction_len(s: Seq<char>) -> Option<nat> {
    match s.index_of_first('.') {
        Some(at) => Some((s.len() - at - 1) as nat),
        None => None,
    }
}

/// How many decimal digits stand right after the first `'.'` of `s`: the digits
/// of the fraction, without anything that follows them, such as an exponent.
/// `None` where `s` holds no `'.'`.
pub open spec fn fraction_digit_count(s: Seq<char>) -> Option<nat> {
    match s.index_of_first('.') {
        Some(at) => Some(digit_prefix_len(s.skip(at + 1))),
        None => None,
    }
}

/// The first `'.'` of a text stays its first `'.'` whatever is written after
/// the text, and where the text holds none, a `'.'` written right after it is
/// the first.
pub proof fn lemma_first_point_of_extension(s: Seq<char>, tail: Seq<char>)
    ensures
        s.index_of_first('.') is Some ==> (s + tail).index_of_first('.') == s.index_of_first('.'),
        s.index_of_first('.') is None && tail.len() > 0 && tail[0] == '.' ==> (s
            + tail).index_of_first('.') == Some(s.len() as int),
        s.index_of_first('.') is None && !tail.contains('.') ==> (s + tail).index_of_first('.')
            is None,
{
    let whole = s + tail;
    s.index_of_first_ensures('.');
    whole.index_of_first_ensures('.');
    match s.index_of_first('.') {
        Some(at) => {
            assert(whole[at] == '.');
            assert(whole.contains('.'));
            let found = whole.index_of_first('.').unwrap();
            if found < at {
                assert(s[found] == whole[found]);
            }
        },
        None => {
            if tail.len() > 0 && tail[0] == '.' {
                assert(whole[s.len() as int] == '.');
                assert(whole.contains('.'));
                let found = whole.index_of_first('.').unwrap();
                if found < s.len() {
                    assert(s[found] == whole[found]);
                    assert(s.contains('.'));
                }
            }
            if !tail.contains('.') {
                if whole.contains('.') {
                    let found = whole.index_of_first('.').unwrap();
                    if found < s.len() {
                        assert(s[found] == whole[found]);
                        assert(s.contains('.'));
                    } else {
                        assert(tail[found - s.len()] == whole[found]);
                        assert(tail.contains('.'));
                    }
                }
            }
        },
    }
}

/// The characters of `s`, in order.
pub(crate) fn chars_of(s: &str) -> (out: Vec<char>)
    ensures
        out@ == s@,
{
    let mut out: Vec<char> = Vec::new();
    for c in it: s.chars()
        invariant
            it.seq() == s@,
            out@ == s@.take(it.index() as int),
    {
        out.push(c);
    }
    out
}

/// Whether `chars` spells exactly the text `word`.
pub(crate) fn spells(chars: &Vec<char>, word: &str) -> (same: bool)
    ensures
        same == (chars@ == word@),
{
    let mut same = true;
    let mut seen: usize = 0;
    for c in it: word.chars()
        invariant
            it.seq() == word@,
            seen <= chars.len(),
            same ==> seen == it.index() && chars@.take(seen as int) == word@.take(seen as int),
            !same ==> chars@ != word@,
    {
        if same {
            assert(c == word@[seen as int]);
            if seen < chars.len() && chars[seen] == c {
                seen = seen + 1;
                assert(chars@.take(seen as int) == chars@.take(seen - 1).push(c));
                assert(word@.take(seen as int) == word@.take(seen - 1).push(c));
            } else {
                same = false;
            }
        }
    }
    assert(word@.take(word@.len() as int) == word@);
    assert(chars@.take(chars@.len() as int) == chars@);
    same && seen == chars.len()
}

/// Position of the first `'.'` in `chars`, if it holds one.
pub(crate) fn first_point(chars: &Vec<char>) -> (at: Option<usize>)
    ensures
        match at {
            Some(p) => p < chars.len() && chars@.index_of_first('.') == Some(p as int),
            None => chars@.index_of_first('.') is None,
        },
{
    let mut i: usize = 0;
    while i < chars.len()
        invariant
            i <= chars.len(),
            forall|j: int| 0 <= j < i ==> chars@[j] != '.',
        decreases chars.len() - i,
    {
        if chars[i] == '.' {
            proof {
                chars@.index_of_first_ensures('.');
            }
            return Some(i);
        }
        i = i + 1;
    }
    proof {
        chars@.index_of_first_ensures('.');
    }
    None
}

/// Appends `count` zero digits to `text`.
pub(crate) fn append_zeros(text: &mut String, count: usize)
    ensures
        final(text)@ == old(text)@ + zeros(count as nat),
{
    let mut done: usize = 0;
    assert(text@ == old(text)@ + zeros(0));
    while done < count
        invariant
            done <= count,
            text@ == old(text)@ + zeros(done as nat),
        decreases count - done,
    {
        proof {
            reveal_strlit("0");
            assert("0"@ == seq!['0']);
            assert(zeros((done + 1) as nat) == zeros(done as nat) + seq!['0']);
        }
        text.append("0");
        done = done + 1;
    }
}

} // verus!
