//! Strings as sequences of characters, and the reading of an id.

use vstd::prelude::*;

verus! {

/// The characters of a string.
pub(crate) fn chars_of(text: &str) -> (out: Vec<char>)
    ensures
        out@ == text@,
{
    let mut out: Vec<char> = Vec::new();
    for c in it: text.chars()
        invariant
            out@ == it.seq().take(it.index() as int),
            it.seq() == text@,
    {
        out.push(c);
    }
    out
}

/// Whether `text` holds `word` from position `at` on.
pub open spec fn holds_at(text: Seq<char>, at: int, word: Seq<char>) -> bool {
    &&& 0 <= at
    &&& at + word.len() <= text.len()
    &&& text.subrange(at, at + word.len()) == word
}

/// Whether `text` holds `word` from position `at` on.
pub(crate) fn word_at(text: &Vec<char>, at: usize, word: &Vec<char>) -> (found: bool)
    ensures
        found == holds_at(text@, at as int, word@),
{
    if at > text.len() || word.len() > text.len() - at {
        return false;
    }
    let mut i: usize = 0;
    while i < word.len()
        invariant
            i <= word.len(),
            at + word.len() <= text.len(),
            text@.subrange(at as int, at + i) == word@.take(i as int),
        decreases word.len() - i,
    {
        if text[at + i] != word[i] {
            assert(text@.subrange(at as int, at + word.len())[i as int] != word@[i as int]);
            return false;
        }
        i += 1;
        assert(text@.subrange(at as int, at + i) =~= word@.take(i as int));
    }
    assert(word@.take(i as int) =~= word@);
    true
}

/// Whether a character is one of the ten digits.
pub open spec fn is_digit(c: char) -> bool {
    '0' <= c <= '9'
}

/// The number that a sequence of digits is read as in base ten.
pub open spec fn decimal(digits: Seq<char>) -> int
    decreases digits.len(),
{
    if digits.len() == 0 {
        0
    } else {
        decimal(digits.drop_last()) * 10 + (digits.last() as int - '0' as int)
    }
}

/// The digits of a number written in base ten, with or without a sign
/// before them.
pub open spec fn digits_of(text: Seq<char>) -> Seq<char> {
    if text.len() > 0 && (text[0] == '-' || text[0] == '+') {
        text.skip(1)
    } else {
        text
    }
}

/// The integer that `text` is read as: an optional sign, `-` or `+`, then
/// one digit or more, and nothing else.
pub open spec fn integer(text: Seq<char>) -> Option<int> {
    let digits = digits_of(text);
    if digits.len() > 0 && (forall|i: int| 0 <= i < digits.len() ==> is_digit(#[trigger] digits[i])) {
        if text[0] == '-' {
            Some(-decimal(digits))
        } else {
            Some(decimal(digits))
        }
    } else {
        None
    }
}

/// The id that `text` is read as: an integer, written as [`integer`] says,
/// that an `i32` can hold.
pub open spec fn id_of(text: Seq<char>) -> Option<i32> {
    match integer(text) {
        Some(n) => if i32::MIN <= n <= i32::MAX {
            Some(n as i32)
        } else {
            None
        },
        None => None,
    }
}

/// A sequence of digits is read as a number that is not negative, and it
/// does not shrink when a digit follows.
proof fn lemma_decimal_grows(digits: Seq<char>)
    requires
        digits.len() > 0,
        forall|i: int| 0 <= i < digits.len() ==> is_digit(#[trigger] digits[i]),
    ensures
        0 <= decimal(digits.drop_last()) <= decimal(digits),
        decimal(digits) == decimal(digits.drop_last()) * 10 + (digits.last() as int - '0' as int),
    decreases digits.len(),
{
    let front = digits.drop_last();
    if front.len() > 0 {
        assert forall|i: int| 0 <= i < front.len() implies is_digit(#[trigger] front[i]) by {
            assert(front[i] == digits[i]);
        }
        lemma_decimal_grows(front);
    }
}

/// Digits are read as a number that is at least the number that their
/// first `k` are read as.
proof fn lemma_decimal_from(digits: Seq<char>, k: int)
    requires
        0 <= k <= digits.len(),
        forall|i: int| 0 <= i < digits.len() ==> is_digit(#[trigger] digits[i]),
    ensures
        0 <= decimal(digits.take(k)) <= decimal(digits),
    decreases digits.len() - k,
{
    if k == digits.len() {
        assert(digits.take(k) =~= digits);
        if k > 0 {
            lemma_decimal_grows(digits);
        }
    } else {
        let next = digits.take(k + 1);
        assert(next.drop_last() =~= digits.take(k));
        assert forall|j: int| 0 <= j < next.len() implies is_digit(#[trigger] next[j]) by {
            assert(next[j] == digits[j]);
        }
        lemma_decimal_grows(next);
        lemma_decimal_from(digits, k + 1);
    }
}

/// Reads an id from the characters of `text` that follow position `from`.
pub(crate) fn read_id(text: &Vec<char>, from: usize) -> (id: Option<i32>)
    requires
        from <= text.len(),
    ensures
        id == id_of(text@.skip(from as int)),
{
    let ghost word = text@.skip(from as int);
    let n = text.len();
    if from == n {
        return None;
    }
    let negative = text[from] == '-';
    let start = if negative || text[from] == '+' {
        from + 1
    } else {
        from
    };
    let ghost digits = digits_of(word);
    if start == n {
        return None;
    }
    // The number read so far, as long as it is at most 2^31.
    let mut value: i64 = 0;
    let mut i = start;
    while i < n
        invariant
            start <= i <= n,
            n == text.len(),
            digits == text@.subrange(start as int, n as int),
            digits == digits_of(text@.skip(from as int)),
            forall|j: int| 0 <= j < i - start ==> is_digit(#[trigger] digits[j]),
            0 <= value <= 0x8000_0000,
            value == decimal(digits.take(i - start)),
        decreases n - i,
    {
        let c = text[i];
        if c < '0' || c > '9' {
            assert(!is_digit(digits[i - start]));
            return None;
        }
        let digit = (c as u32 - '0' as u32) as i64;
        let ghost read = digits.take(i - start + 1);
        proof {
            assert(read.drop_last() =~= digits.take(i - start));
            assert forall|j: int| 0 <= j < read.len() implies is_digit(#[trigger] read[j]) by {
                assert(read[j] == digits[j]);
            }
            lemma_decimal_grows(read);
        }
        value = value * 10 + digit;
        if value > 0x8000_0000 {
            proof {
                if forall|j: int| 0 <= j < digits.len() ==> is_digit(#[trigger] digits[j]) {
                    lemma_decimal_from(digits, i - start + 1);
                }
            }
            return None;
        }
        i += 1;
    }
    assert(digits.take(i - start) =~= digits);
    if negative {
        Some((-value) as i32)
    } else if value <= 0x7fff_ffff {
        Some(value as i32)
    } else {
        None
    }
}

/// Reads an id: an optional sign, `-` or `+`, then one digit or more, and
/// nothing else, which together say a number that an `i32` can hold.
pub fn parse_id(text: &str) -> (id: Option<i32>)
    ensures
        id == id_of(text@),
{
    let letters = chars_of(text);
    assert(letters@.skip(0) =~= text@);
    read_id(&letters, 0)
}

} // verus!
