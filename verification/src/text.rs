//! Text helpers: decimal numbers, words, and the string operations that the rest of
//! the library builds its messages from.

use vstd::prelude::*;

verus! {

broadcast use vstd::string::group_string_axioms;

/// Appends one character to a string, as `String::push` is documented to.
pub assume_specification[ String::push ](s: &mut String, c: char)
    ensures
        final(s)@ == old(s)@.push(c),
;

/// Compares two string slices character by character, as `==` on `str` is documented to.
pub assume_specification[ <str as PartialEq>::eq ](a: &str, b: &str) -> (r: bool)
    ensures
        r == (a@ == b@),
;

/// Whether two texts are the same.
pub fn same_text(a: &str, b: &str) -> (r: bool)
    ensures
        r == (a@ == b@),
{
    a.eq(b)
}

/// The decimal digit that stands for `d`.
pub open spec fn digit(d: nat) -> char {
    (('0' as nat) + d) as char
}

/// The decimal representation of `n`, without leading zeros.
pub open spec fn decimal(n: nat) -> Seq<char>
    decreases n,
{
    if n < 10 {
        seq![digit(n)]
    } else {
        decimal(n / 10).push(digit(n % 10))
    }
}

/// The value that the digit `c` stands for.
pub open spec fn digit_value(c: char) -> nat {
    (c as int - '0' as int) as nat
}

pub open spec fn is_digit(c: char) -> bool {
    '0' as int <= c as int <= '9' as int
}

pub open spec fn all_digits(s: Seq<char>) -> bool {
    forall|i: int| 0 <= i < s.len() ==> #[trigger] is_digit(s[i])
}

/// The number that a sequence of digits stands for.
pub open spec fn digits_value(s: Seq<char>) -> nat
    decreases s.len(),
{
    if s.len() == 0 {
        0
    } else {
        digits_value(s.drop_last()) * 10 + digit_value(s.last())
    }
}

/// The digits of a number: what is left after an optional leading `+`.
pub open spec fn without_plus(s: Seq<char>) -> Seq<char> {
    if s.len() > 0 && s[0] == '+' {
        s.skip(1)
    } else {
        s
    }
}

/// The unsigned number that `s` is the text of: an optional `+`, then at least one
/// digit and nothing else, with a value of at most `max`.
pub open spec fn unsigned_value(s: Seq<char>, max: nat) -> Option<nat> {
    let digits = without_plus(s);
    if digits.len() > 0 && all_digits(digits) && digits_value(digits) <= max {
        Some(digits_value(digits))
    } else {
        None
    }
}

fn digit_char(d: u8) -> (c: char)
    requires
        d < 10,
    ensures
        c == digit(d as nat),
{
    (48u8 + d) as char
}

fn push_decimal(out: &mut String, n: u128)
    ensures
        final(out)@ == old(out)@ + decimal(n as nat),
    decreases n,
{
    if n < 10 {
        out.push(digit_char(n as u8));
        assert(out@ =~= old(out)@ + decimal(n as nat));
    } else {
        push_decimal(out, n / 10);
        out.push(digit_char((n % 10) as u8));
        assert(out@ =~= old(out)@ + decimal(n as nat));
    }
}

/// The decimal text of `n`.
pub fn decimal_text(n: u128) -> (r: String)
    ensures
        r@ == decimal(n as nat),
{
    let mut out = String::new();
    push_decimal(&mut out, n);
    assert(Seq::<char>::empty() + decimal(n as nat) =~= decimal(n as nat));
    out
}

/// `prefix`, then the decimal text of `n`, then `suffix`.
pub fn numbered(prefix: &str, n: u128, suffix: &str) -> (r: String)
    ensures
        r@ == prefix@ + decimal(n as nat) + suffix@,
{
    let mut out = prefix.to_owned();
    push_decimal(&mut out, n);
    out.append(suffix);
    out
}

/// `a`, `b` and `c` one after the other.
pub fn joined(a: &str, b: &str, c: &str) -> (r: String)
    ensures
        r@ == a@ + b@ + c@,
{
    let mut out = a.to_owned();
    out.append(b);
    out.append(c);
    out
}

/// The characters of a text.
pub fn chars_of(s: &str) -> (r: Vec<char>)
    ensures
        r@ == s@,
{
    let mut out: Vec<char> = Vec::new();
    for c in it: s.chars()
        invariant
            out@ == it.seq().take(it.index()),
            it.seq() == s@,
    {
        out.push(c);
        assert(out@ =~= it.seq().take(it.index() + 1));
    }
    assert(out@ =~= s@);
    out
}

/// The text made of the given characters.
pub fn text_of(chars: &[char]) -> (r: String)
    ensures
        r@ == chars@,
{
    let mut out = String::new();
    let mut i: usize = 0;
    while i < chars.len()
        invariant
            i <= chars.len(),
            out@ == chars@.take(i as int),
        decreases chars.len() - i,
    {
        out.push(chars[i]);
        assert(chars@.take(i as int).push(chars@[i as int]) =~= chars@.take(i + 1));
        i = i + 1;
    }
    assert(chars@.take(chars@.len() as int) =~= chars@);
    out
}

/// Prefixes of a number have at most its value.
proof fn lemma_prefix_value(s: Seq<char>, k: int)
    requires
        0 <= k <= s.len(),
    ensures
        digits_value(s.take(k)) <= digits_value(s),
    decreases s.len() - k,
{
    if k == s.len() {
        assert(s.take(k) =~= s);
    } else {
        lemma_prefix_value(s, k + 1);
        assert(s.take(k + 1).drop_last() =~= s.take(k));
    }
}

/// Reads an unsigned number of at most `max`.
pub fn parse_unsigned(text: &[char], max: u64) -> (r: Option<u64>)
    ensures
        match r {
            Some(n) => unsigned_value(text@, max as nat) == Some(n as nat),
            None => unsigned_value(text@, max as nat) is None,
        },
{
    let ghost digits = without_plus(text@);
    let start: usize = if text.len() > 0 && text[0] == '+' {
        1
    } else {
        0
    };
    assert(digits =~= text@.skip(start as int));
    if start == text.len() {
        return None;
    }
    let mut value: u64 = 0;
    let mut i: usize = start;
    while i < text.len()
        invariant
            start <= i <= text.len(),
            digits == text@.skip(start as int),
            digits == without_plus(text@),
            digits.len() == text.len() - start,
            value == digits_value(digits.take(i - start)),
            value <= max,
            all_digits(digits.take(i - start)),
        decreases text.len() - i,
    {
        let c = text[i];
        assert(digits[i - start] == c);
        assert(digits.take(i + 1 - start).drop_last() =~= digits.take(i - start));
        if !('0' <= c && c <= '9') {
            assert(!is_digit(digits[i - start]));
            return None;
        }
        let d: u64 = (c as u32 - 48) as u64;
        assert(d == digit_value(c));
        proof {
            lemma_prefix_value(digits, i + 1 - start);
            assert(digits_value(digits.take(i + 1 - start)) == value * 10 + d);
        }
        if value > max / 10 || d > max || value * 10 > max - d {
            return None;
        }
        value = value * 10 + d;
        i = i + 1;
        proof {
            let now = digits.take(i - start);
            assert forall|j: int| 0 <= j < now.len() implies #[trigger] is_digit(now[j]) by {
                if j < now.len() - 1 {
                    assert(now[j] == digits.take(i - 1 - start)[j]);
                }
            }
        }
    }
    assert(digits.take(text.len() - start) =~= digits);
    Some(value)
}

/// Whether a character is white space: the Unicode property `White_Space`.
pub open spec fn is_space(c: char) -> bool {
    let n = c as int;
    ||| 0x9 <= n <= 0xd
    ||| n == 0x20
    ||| n == 0x85
    ||| n == 0xa0
    ||| n == 0x1680
    ||| 0x2000 <= n <= 0x200a
    ||| n == 0x2028
    ||| n == 0x2029
    ||| n == 0x202f
    ||| n == 0x205f
    ||| n == 0x3000
}

fn space(c: char) -> (r: bool)
    ensures
        r == is_space(c),
{
    let n = c as u32;
    (0x9 <= n && n <= 0xd) || n == 0x20 || n == 0x85 || n == 0xa0 || n == 0x1680 || (0x2000 <= n
        && n <= 0x200a) || n == 0x2028 || n == 0x2029 || n == 0x202f || n == 0x205f || n == 0x3000
}

/// The number of characters before the first white space.
pub open spec fn word_len(s: Seq<char>) -> nat
    decreases s.len(),
{
    if s.len() == 0 || is_space(s[0]) {
        0
    } else {
        1 + word_len(s.skip(1))
    }
}

/// A word is no longer than the text it starts.
pub proof fn lemma_word_len_bound(s: Seq<char>)
    ensures
        word_len(s) <= s.len(),
    decreases s.len(),
{
    if s.len() > 0 && !is_space(s[0]) {
        lemma_word_len_bound(s.skip(1));
    }
}

/// The words of a text: its maximal runs of characters that are not white space.
pub open spec fn words(s: Seq<char>) -> Seq<Seq<char>>
    decreases s.len(),
{
    if s.len() == 0 {
        Seq::empty()
    } else if is_space(s[0]) {
        words(s.skip(1))
    } else {
        proof {
            lemma_word_len_bound(s);
        }
        seq![s.take(word_len(s) as int)] + words(s.skip(word_len(s) as int))
    }
}

proof fn lemma_word_len(s: Seq<char>, k: nat)
    requires
        k <= s.len(),
        forall|i: int| 0 <= i < k ==> !is_space(#[trigger] s[i]),
        k == s.len() || is_space(s[k as int]),
    ensures
        word_len(s) == k,
    decreases s.len(),
{
    if k > 0 {
        assert forall|i: int| 0 <= i < k - 1 implies !is_space(#[trigger] s.skip(1)[i]) by {
            assert(s.skip(1)[i] == s[i + 1]);
        }
        lemma_word_len(s.skip(1), (k - 1) as nat);
    }
}

/// The words of a text, in order.
pub fn split_words(text: &[char]) -> (r: Vec<Vec<char>>)
    ensures
        r@.len() == words(text@).len(),
        forall|i: int| 0 <= i < r@.len() ==> (#[trigger] r@[i])@ == words(text@)[i],
{
    let mut out: Vec<Vec<char>> = Vec::new();
    let mut i: usize = 0;
    assert(text@.skip(0) =~= text@);
    while i < text.len()
        invariant
            i <= text.len(),
            words(text@).len() == out@.len() + words(text@.skip(i as int)).len(),
            forall|k: int| 0 <= k < out@.len() ==> (#[trigger] out@[k])@ == words(text@)[k],
            forall|k: int|
                0 <= k < words(text@.skip(i as int)).len() ==> words(text@)[out@.len() + k]
                    == #[trigger] words(text@.skip(i as int))[k],
        decreases text.len() - i,
    {
        let ghost rest = text@.skip(i as int);
        let ghost at = i as int;
        if space(text[i]) {
            assert(rest.skip(1) =~= text@.skip(i + 1));
            i = i + 1;
        } else {
            let mut word: Vec<char> = Vec::new();
            while i < text.len() && !space(text[i])
                invariant
                    0 <= at <= i <= text.len(),
                    word@ == text@.subrange(at, i as int),
                    forall|k: int| at <= k < i ==> !is_space(#[trigger] text@[k]),
                decreases text.len() - i,
            {
                word.push(text[i]);
                assert(word@ =~= text@.subrange(at, i + 1));
                i = i + 1;
            }
            proof {
                let k = (i - at) as nat;
                assert forall|j: int| 0 <= j < k implies !is_space(#[trigger] rest[j]) by {
                    assert(rest[j] == text@[at + j]);
                }
                lemma_word_len(rest, k);
                assert(rest.take(k as int) =~= word@);
                assert(rest.skip(k as int) =~= text@.skip(i as int));
                assert(words(rest) =~= seq![word@] + words(text@.skip(i as int)));
                let tail = words(text@.skip(i as int));
                assert(words(rest)[0] == word@);
                assert(words(text@)[out@.len() as int] == word@);
                assert forall|j: int| 0 <= j < tail.len() implies words(text@)[out@.len() + 1 + j]
                    == #[trigger] tail[j] by {
                    assert(words(rest)[j + 1] == tail[j]);
                }
            }
            out.push(word);
        }
    }
    out
}

// ---------------------------------------------------------------------------------
// Laws
// ---------------------------------------------------------------------------------

proof fn lemma_digit(d: nat)
    requires
        d < 10,
    ensures
        is_digit(digit(d)),
        digit_value(digit(d)) == d,
        digit(d) != '+',
        digit(d) == '0' <==> d == 0,
{
}

/// The decimal text of a number is read back as the number, where it is not too large, and
/// is refused where it is. It holds nothing but digits, and no superfluous zero.
pub proof fn law_decimals_are_read_back(n: nat, max: nat)
    ensures
        decimal(n).len() > 0,
        all_digits(decimal(n)),
        digits_value(decimal(n)) == n,
        unsigned_value(decimal(n), max) == if n <= max {
            Some(n)
        } else {
            None
        },
        decimal(n).len() > 1 ==> decimal(n)[0] != '0',
    decreases n,
{
    if n < 10 {
        lemma_digit(n);
        assert(decimal(n).drop_last() =~= Seq::empty());
        assert(digits_value(decimal(n)) == digits_value(Seq::empty()) * 10 + n);
    } else {
        law_decimals_are_read_back(n / 10, max);
        lemma_digit(n % 10);
        assert(decimal(n).drop_last() =~= decimal(n / 10));
        assert forall|i: int| 0 <= i < decimal(n).len() implies #[trigger] is_digit(
            decimal(n)[i],
        ) by {
            if i < decimal(n).len() - 1 {
                assert(is_digit(decimal(n / 10)[i]));
            }
        }
        assert(decimal(n)[0] == decimal(n / 10)[0]);
        if decimal(n / 10).len() == 1 && decimal(n)[0] == '0' {
            assert(decimal(n / 10).drop_last() =~= Seq::empty());
            assert(digits_value(decimal(n / 10)) == digits_value(Seq::empty()) * 10 + 0);
        }
    }
    assert(is_digit(decimal(n)[0]));
    assert(without_plus(decimal(n)) == decimal(n));
}

/// No two numbers have the same decimal text.
pub proof fn law_numbers_have_their_own_text(a: nat, b: nat)
    ensures
        decimal(a) == decimal(b) <==> a == b,
{
    law_decimals_are_read_back(a, a);
    law_decimals_are_read_back(b, b);
}

proof fn lemma_leading_zero(s: Seq<char>)
    ensures
        digits_value(seq!['0'] + s) == digits_value(s),
    decreases s.len(),
{
    if s.len() == 0 {
        assert((seq!['0'] + s).drop_last() =~= Seq::empty());
        lemma_digit(0);
        assert((seq!['0'] + s).last() == digit(0));
        assert(digits_value(Seq::empty()) == 0);
    } else {
        assert((seq!['0'] + s).drop_last() =~= seq!['0'] + s.drop_last());
        lemma_leading_zero(s.drop_last());
    }
}

/// A text is a number exactly if it has a digit, and nothing but digits after a `+` that may
/// come first, and the number is not too large. Leading zeros and the `+` make no difference.
pub proof fn law_numbers_are_digits(s: Seq<char>, max: nat, i: int)
    ensures
        unsigned_value(s, max) matches Some(n) ==> n <= max && s.len() > 0,
        0 <= i < s.len() && !('0' <= s[i] <= '9') && !(i == 0 && s[0] == '+') ==> unsigned_value(
            s,
            max,
        ) is None,
        s == seq!['+'] ==> unsigned_value(s, max) is None,
        all_digits(s) && s.len() > 0 ==> unsigned_value(seq!['+'] + s, max) == unsigned_value(
            s,
            max,
        ),
        all_digits(s) && s.len() > 0 ==> unsigned_value(seq!['0'] + s, max) == unsigned_value(
            s,
            max,
        ),
{
    let digits = without_plus(s);
    if 0 <= i < s.len() && !('0' <= s[i] <= '9') && !(i == 0 && s[0] == '+') {
        let j = if s[0] == '+' {
            i - 1
        } else {
            i
        };
        assert(digits[j] == s[i]);
        assert(!is_digit(digits[j]));
    }
    if all_digits(s) && s.len() > 0 {
        assert(is_digit(s[0]));
        assert((seq!['+'] + s).skip(1) =~= s);
        lemma_leading_zero(s);
        let zero = seq!['0'] + s;
        assert forall|k: int| 0 <= k < zero.len() implies #[trigger] is_digit(zero[k]) by {
            if k > 0 {
                assert(is_digit(s[k - 1]));
            }
        }
    }
}

/// Some words, each followed by the character `c`.
pub open spec fn separated(words: Seq<Seq<char>>, c: char) -> Seq<char>
    decreases words.len(),
{
    if words.len() == 0 {
        Seq::empty()
    } else {
        words[0] + seq![c] + separated(words.skip(1), c)
    }
}

/// Whether a text is a word: it is not empty, and no white space is in it.
pub open spec fn is_word(s: Seq<char>) -> bool {
    s.len() > 0 && forall|i: int| 0 <= i < s.len() ==> !is_space(#[trigger] s[i])
}

/// Words that are written one after the other, with white space in between, are read back as
/// they were, whether or not there is white space before or behind them.
pub proof fn law_words_are_read_back(list: Seq<Seq<char>>, c: char, last: Seq<char>)
    requires
        is_space(c),
        forall|i: int| 0 <= i < list.len() ==> is_word(#[trigger] list[i]),
        is_word(last),
    ensures
        words(separated(list, c)) == list,
        words(separated(list, c) + last) == list.push(last),
        words(seq![c] + separated(list, c)) == list,
    decreases list.len(),
{
    let s = separated(list, c);
    assert((seq![c] + s).skip(1) =~= s);
    if list.len() == 0 {
        assert(s + last =~= last);
        lemma_word_len(last, last.len());
        assert(last.take(last.len() as int) =~= last);
        assert(last.skip(last.len() as int) =~= Seq::empty());
        assert(!is_space(last[0]));
        assert(words(Seq::empty()) =~= Seq::empty());
        assert(words(last) =~= seq![last] + Seq::<Seq<char>>::empty());
        assert(list =~= Seq::empty());
        assert(list.push(last) =~= seq![last]);
    } else {
        let rest = list.skip(1);
        assert forall|i: int| 0 <= i < rest.len() implies is_word(#[trigger] rest[i]) by {
            assert(rest[i] == list[i + 1]);
        }
        law_words_are_read_back(rest, c, last);
        let word = list[0];
        assert(is_word(word));
        let k = word.len();
        assert forall|i: int| 0 <= i < k implies !is_space(#[trigger] s[i]) && !is_space(
            (s + last)[i],
        ) by {
            assert(s[i] == word[i]);
        }
        assert(s[k as int] == c && (s + last)[k as int] == c);
        lemma_word_len(s, k);
        lemma_word_len(s + last, k);
        assert(s.take(k as int) =~= word);
        assert((s + last).take(k as int) =~= word);
        let tail = seq![c] + separated(rest, c);
        assert(s.skip(k as int) =~= tail);
        assert((s + last).skip(k as int) =~= tail + last);
        assert((tail + last).skip(1) =~= separated(rest, c) + last);
        assert(words(tail + last) == rest.push(last));
        assert(list =~= seq![word] + rest);
        assert(words(s) =~= seq![word] + rest);
        assert(words(s + last) =~= seq![word] + rest.push(last));
        assert(list.push(last) =~= seq![word] + rest.push(last));
    }
}

/// Blanks, tabs and line breaks separate words; letters, digits and punctuation do not.
pub proof fn law_what_separates_words(c: char)
    ensures
        c == ' ' || c == '\t' || c == '\n' || c == '\r' ==> is_space(c),
        '!' <= c <= '~' ==> !is_space(c),
{
}

/// A number that is written is read back, and texts are put together as they are.
pub proof fn law_what_is_written_is_read_back(
    n: u128,
    text: String,
    chars: &[char],
    max: u64,
    r: Option<u64>,
    prefix: &str,
    suffix: &str,
    between: String,
)
    requires
        call_ensures(decimal_text, (n,), text),
        chars@ == text@,
        call_ensures(parse_unsigned, (chars, max), r),
        call_ensures(numbered, (prefix, n, suffix), between),
    ensures
        n <= max ==> r == Some(n as u64),
        n > max ==> r is None,
        between@ == prefix@ + text@ + suffix@,
{
    law_decimals_are_read_back(n as nat, max as nat);
}

/// The characters of a text make up the same text again, and texts are the same exactly if
/// their characters are.
pub proof fn law_texts_are_their_characters(
    text: &str,
    chars: Vec<char>,
    slice: &[char],
    again: String,
    other: &str,
    same: bool,
)
    requires
        call_ensures(chars_of, (text,), chars),
        slice@ == chars@,
        call_ensures(text_of, (slice,), again),
        call_ensures(same_text, (text, other), same),
    ensures
        chars@.len() == text@.len(),
        again@ == text@,
        same <==> text@ == other@,
{
}

} // verus!
