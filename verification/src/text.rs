//! Text: the questions that the rest of the crate asks of a string.

use vstd::prelude::*;

verus! {

/// `str`'s own `==`: two strings are equal when they hold the same characters
/// in the same order.
pub assume_specification[ <str as PartialEq>::eq ](a: &str, b: &str) -> (r: bool)
    ensures
        r == (a@ == b@),
;

/// `str::to_ascii_lowercase`: every ASCII upper case letter becomes its lower
/// case equivalent, every other character stays as it is.
pub assume_specification[ str::to_ascii_lowercase ](s: &str) -> (r: String)
    ensures
        r@ == ascii_lowercase(s@),
;

/// Whether two strings hold the same text.
pub fn same_text(a: &str, b: &str) -> (r: bool)
    ensures
        r == (a@ == b@),
{
    *a == *b
}

/// A character with its ASCII upper case letter made lower case.
pub open spec fn ascii_lowercase_char(c: char) -> char {
    if 'A' <= c <= 'Z' {
        ((c as u32) + 32) as char
    } else {
        c
    }
}

/// A text with its ASCII upper case letters made lower case.
pub open spec fn ascii_lowercase(s: Seq<char>) -> Seq<char> {
    s.map_values(|c: char| ascii_lowercase_char(c))
}

/// Whether two strings hold the same text when the case of ASCII letters is
/// ignored.
pub fn eq_ignore_ascii_case(a: &str, b: &str) -> (r: bool)
    ensures
        r == (ascii_lowercase(a@) == ascii_lowercase(b@)),
{
    a.to_ascii_lowercase() == b.to_ascii_lowercase()
}

/// The characters with the Unicode property White_Space.
pub open spec fn is_white_space(c: char) -> bool {
    ||| '\u{9}' <= c <= '\u{d}'
    ||| c == '\u{20}'
    ||| c == '\u{85}'
    ||| c == '\u{a0}'
    ||| c == '\u{1680}'
    ||| '\u{2000}' <= c <= '\u{200a}'
    ||| c == '\u{2028}'
    ||| c == '\u{2029}'
    ||| c == '\u{202f}'
    ||| c == '\u{205f}'
    ||| c == '\u{3000}'
}

/// Whether nothing of a text is left once white space is trimmed off its ends:
/// it holds white space only.
pub open spec fn blank(s: Seq<char>) -> bool {
    forall|i: int| 0 <= i < s.len() ==> is_white_space(#[trigger] s[i])
}

/// Whether a string is empty or holds white space only.
pub fn is_blank(s: &str) -> (r: bool)
    ensures
        r == blank(s@),
{
    for c in it: s.chars()
        invariant
            it.seq() == s@,
            forall|i: int| 0 <= i < it.index() ==> is_white_space(#[trigger] s@[i]),
    {
        let white: bool = ('\u{9}' <= c && c <= '\u{d}') || c == '\u{20}' || c == '\u{85}' || c == '\u{a0}'
            || c == '\u{1680}' || ('\u{2000}' <= c && c <= '\u{200a}') || c == '\u{2028}' || c == '\u{2029}'
            || c == '\u{202f}' || c == '\u{205f}' || c == '\u{3000}';
        if !white {
            assert(!is_white_space(s@[it.index() as int]));
            return false;
        }
    }
    true
}

/// Whether a text ends with another.
pub open spec fn has_suffix(s: Seq<char>, suffix: Seq<char>) -> bool {
    s.len() >= suffix.len() && s.skip(s.len() - suffix.len()) == suffix
}

/// Whether a string ends with another.
pub fn ends_with(s: &str, suffix: &str) -> (r: bool)
    ensures
        r == has_suffix(s@, suffix@),
{
    let n: usize = s.unicode_len();
    let m: usize = suffix.unicode_len();
    if n < m {
        return false;
    }
    proof {
        assert(s@.skip(n - m) == s@.subrange(n - m, n as int));
    }
    same_text(s.substring_char(n - m, n), suffix)
}

/// Whether a text starts with another.
pub open spec fn has_prefix(s: Seq<char>, prefix: Seq<char>) -> bool {
    s.len() >= prefix.len() && s.take(prefix.len() as int) == prefix
}

/// What follows `prefix` in a string that starts with it.
pub fn strip_prefix<'a>(s: &'a str, prefix: &str) -> (r: Option<&'a str>)
    ensures
        match r {
            Some(rest) => has_prefix(s@, prefix@) && rest@ == s@.skip(prefix@.len() as int),
            None => !has_prefix(s@, prefix@),
        },
{
    let n: usize = s.unicode_len();
    let m: usize = prefix.unicode_len();
    if n < m {
        return None;
    }
    proof {
        assert(s@.take(m as int) == s@.subrange(0, m as int));
        assert(s@.skip(m as int) == s@.subrange(m as int, n as int));
    }
    if same_text(s.substring_char(0, m), prefix) {
        Some(s.substring_char(m, n))
    } else {
        None
    }
}

/// Whether every character of a text is a decimal digit.
pub open spec fn all_digits(s: Seq<char>) -> bool {
    forall|i: int| 0 <= i < s.len() ==> '0' <= #[trigger] s[i] <= '9'
}

/// The number that a text of decimal digits writes.
pub open spec fn digits_value(s: Seq<char>) -> int
    decreases s.len(),
{
    if s.len() == 0 {
        0
    } else {
        10 * digits_value(s.drop_last()) + (s.last() as int - '0' as int)
    }
}

/// The digits of a number that may have a plus sign before it.
pub open spec fn without_plus(s: Seq<char>) -> Seq<char> {
    if s.len() > 0 && s[0] == '+' {
        s.skip(1)
    } else {
        s
    }
}

/// The unsigned 64-bit number that a text writes in decimal: one digit or more,
/// with a plus sign before them or not, of a value that fits.
pub open spec fn unsigned_number(s: Seq<char>) -> Option<u64> {
    let digits = without_plus(s);
    if digits.len() > 0 && all_digits(digits) && digits_value(digits) <= u64::MAX {
        Some(digits_value(digits) as u64)
    } else {
        None
    }
}

/// More digits write no smaller a number.
proof fn lemma_digits_value_grows(s: Seq<char>, n: int)
    requires
        all_digits(s),
        0 <= n <= s.len(),
    ensures
        0 <= digits_value(s.take(n)) <= digits_value(s),
    decreases s.len(),
{
    if s.len() == 0 {
        assert(s.take(n) == s);
    } else {
        let front = s.drop_last();
        assert(all_digits(front)) by {
            assert forall|i: int| 0 <= i < front.len() implies '0' <= #[trigger] front[i] <= '9' by {
                assert(front[i] == s[i]);
            }
        }
        assert('0' <= s[s.len() - 1] <= '9');
        if n == s.len() {
            assert(s.take(n) == s);
            lemma_digits_value_grows(front, 0);
            assert(digits_value(front.take(0)) == 0);
        } else {
            assert(front.take(n) == s.take(n));
            lemma_digits_value_grows(front, n);
        }
    }
}

/// Reads an unsigned 64-bit number written in decimal.
pub fn parse_u64(s: &str) -> (r: Option<u64>)
    ensures
        r == unsigned_number(s@),
{
    let digits: &str = match strip_prefix(s, "+") {
        Some(rest) => rest,
        None => s,
    };
    proof {
        reveal_strlit("+");
        assert("+"@ == seq!['+']);
        assert(digits@ == without_plus(s@)) by {
            if s@.len() > 0 && s@[0] == '+' {
                assert(s@.take(1) == seq!['+']);
            } else if s@.len() > 0 {
                assert(s@.take(1)[0] == s@[0]);
            }
        }
    }
    if digits.is_empty() {
        return None;
    }
    let mut value: u64 = 0;
    for c in it: digits.chars()
        invariant
            it.seq() == digits@,
            digits@ == without_plus(s@),
            forall|i: int| 0 <= i < it.index() ==> '0' <= #[trigger] digits@[i] <= '9',
            value == digits_value(digits@.take(it.index() as int)),
    {
        let ghost k: int = it.index() as int;
        proof {
            assert(digits@.take(k + 1).drop_last() == digits@.take(k));
            assert(digits@.take(k + 1).last() == c);
        }
        if c < '0' || '9' < c {
            assert(!all_digits(digits@));
            return None;
        }
        let digit: u64 = (c as u64) - ('0' as u64);
        if value > (u64::MAX - digit) / 10 {
            proof {
                if all_digits(digits@) {
                    lemma_digits_value_grows(digits@, k + 1);
                }
            }
            return None;
        }
        value = value * 10 + digit;
    }
    proof {
        assert(digits@.take(digits@.len() as int) == digits@);
    }
    Some(value)
}

/// A digit as text.
pub open spec fn digit_text(d: nat) -> Seq<char> {
    seq![(('0' as u32) + d) as char]
}

/// A number written in decimal.
pub open spec fn decimal(n: nat) -> Seq<char>
    decreases n,
{
    if n < 10 {
        digit_text(n)
    } else {
        decimal(n / 10) + digit_text(n % 10)
    }
}

fn digit_str(d: u64) -> (r: &'static str)
    requires
        d < 10,
    ensures
        r@ == digit_text(d as nat),
{
    proof {
        reveal_strlit("0");
        reveal_strlit("1");
        reveal_strlit("2");
        reveal_strlit("3");
        reveal_strlit("4");
        reveal_strlit("5");
        reveal_strlit("6");
        reveal_strlit("7");
        reveal_strlit("8");
        reveal_strlit("9");
    }
    let text: &'static str = if d == 0 {
        "0"
    } else if d == 1 {
        "1"
    } else if d == 2 {
        "2"
    } else if d == 3 {
        "3"
    } else if d == 4 {
        "4"
    } else if d == 5 {
        "5"
    } else if d == 6 {
        "6"
    } else if d == 7 {
        "7"
    } else if d == 8 {
        "8"
    } else {
        "9"
    };
    assert(text@ == digit_text(d as nat));
    text
}

/// Writes a number in decimal.
pub fn u64_text(n: u64) -> (r: String)
    ensures
        r@ == decimal(n as nat),
    decreases n,
{
    if n < 10 {
        digit_str(n).to_string()
    } else {
        u64_text(n / 10).concat(digit_str(n % 10))
    }
}

/// What is written in decimal is digits that write the number.
proof fn lemma_decimal_writes(n: nat)
    ensures
        decimal(n).len() > 0,
        all_digits(decimal(n)),
        digits_value(decimal(n)) == n,
    decreases n,
{
    let digit = n % 10;
    let c = digit_text(digit)[0];
    assert('0' <= c <= '9' && c as int - '0' as int == digit);
    if n < 10 {
        reveal_with_fuel(digits_value, 2);
        assert(decimal(n).drop_last().len() == 0);
        assert(decimal(n).last() == c);
    } else {
        let front = decimal(n / 10);
        lemma_decimal_writes(n / 10);
        assert(decimal(n).drop_last() == front);
        assert(decimal(n).last() == c);
        assert forall|i: int| 0 <= i < decimal(n).len() implies '0' <= #[trigger] decimal(n)[i] <= '9' by {
            if i < front.len() {
                assert(decimal(n)[i] == front[i]);
            }
        }
    }
}

/// A number that was written in decimal is read back as itself.
pub proof fn lemma_decimal_is_read_back(n: u64)
    ensures
        unsigned_number(decimal(n as nat)) == Some(n),
{
    lemma_decimal_writes(n as nat);
    assert('0' <= decimal(n as nat)[0] <= '9');
}

/// To make a text lower case changes its ASCII upper case letters and nothing
/// else, each where it stands.
pub proof fn lemma_lowercase_by_character(s: Seq<char>, i: int)
    requires
        0 <= i < s.len(),
    ensures
        ascii_lowercase(s).len() == s.len(),
        'A' <= s[i] <= 'Z' ==> ascii_lowercase(s)[i] as int == s[i] as int + ('a' as int - 'A' as int),
        !('A' <= s[i] <= 'Z') ==> ascii_lowercase(s)[i] == s[i],
{
}

/// Texts put together are blank where each of them is; a text with a letter or a
/// digit in it is not.
pub proof fn lemma_blank_together(a: Seq<char>, b: Seq<char>, i: int)
    ensures
        blank(Seq::<char>::empty()),
        blank(seq![' ']) && blank(seq!['\n']) && blank(seq!['\t']) && blank(seq!['\r']),
        blank(a + b) <==> blank(a) && blank(b),
        0 <= i < a.len() && '!' <= a[i] <= '~' ==> !blank(a),
{
    if blank(a + b) {
        assert forall|k: int| 0 <= k < a.len() implies is_white_space(#[trigger] a[k]) by {
            assert((a + b)[k] == a[k]);
        }
        assert forall|k: int| 0 <= k < b.len() implies is_white_space(#[trigger] b[k]) by {
            assert((a + b)[a.len() + k] == b[k]);
        }
    }
}

/// A text ends with another exactly where it is something followed by it.
pub proof fn lemma_suffix_is_what_comes_last(front: Seq<char>, suffix: Seq<char>, s: Seq<char>)
    ensures
        has_suffix(front + suffix, suffix),
        has_suffix(s, suffix) ==> s == s.take(s.len() - suffix.len()) + suffix,
{
    assert((front + suffix).skip(front.len() as int) == suffix);
    if has_suffix(s, suffix) {
        assert(s == s.take(s.len() - suffix.len()) + s.skip(s.len() - suffix.len()));
    }
}

/// A text starts with another exactly where it is that one followed by
/// something, and that is what follows.
pub proof fn lemma_prefix_is_what_comes_first(prefix: Seq<char>, rest: Seq<char>, s: Seq<char>)
    ensures
        has_prefix(prefix + rest, prefix),
        (prefix + rest).skip(prefix.len() as int) == rest,
        has_prefix(s, prefix) ==> s == prefix + s.skip(prefix.len() as int),
{
    assert((prefix + rest).take(prefix.len() as int) == prefix);
    assert((prefix + rest).skip(prefix.len() as int) == rest);
    if has_prefix(s, prefix) {
        assert(s == s.take(prefix.len() as int) + s.skip(prefix.len() as int));
    }
}

/// A number is read digit by digit: one more digit makes it ten times as large
/// and adds the digit, as long as it fits. A plus sign before it changes nothing,
/// and nothing else may stand beside the digits.
pub proof fn lemma_number_grows_by_a_digit(s: Seq<char>, n: u64, c: char)
    requires
        unsigned_number(s) == Some(n),
    ensures
        '0' <= c <= '9' && 10 * n + (c as int - '0' as int) <= u64::MAX ==> unsigned_number(s.push(c)) == Some(
            (10 * n + (c as int - '0' as int)) as u64,
        ),
        '0' <= c <= '9' && 10 * n + (c as int - '0' as int) > u64::MAX ==> unsigned_number(s.push(c)) is None,
        !('0' <= c <= '9') ==> unsigned_number(s.push(c)) is None,
        s[0] != '+' ==> unsigned_number(seq!['+'] + s) == Some(n),
        s[0] == '+' ==> unsigned_number(seq!['+'] + s) is None,
{
    let digits = without_plus(s);
    let longer = without_plus(s.push(c));
    lemma_digits_value_grows(digits, digits.len() as int);
    assert(digits.take(digits.len() as int) == digits);
    assert(s.push(c)[0] == s[0]);
    assert(longer == digits.push(c));
    assert(longer.drop_last() == digits);
    assert(longer[longer.len() - 1] == c);
    if '0' <= c <= '9' {
        assert forall|i: int| 0 <= i < longer.len() implies '0' <= #[trigger] longer[i] <= '9' by {
            if i < digits.len() {
                assert(longer[i] == digits[i]);
            }
        }
    }
    assert((seq!['+'] + s)[0] == '+');
    assert((seq!['+'] + s).skip(1) == s);
}

/// What writes no number writes none with more behind it, unless nothing was
/// there yet but a plus sign.
pub proof fn lemma_no_number_stays_none(s: Seq<char>, c: char)
    requires
        unsigned_number(s) is None,
        s.len() > 0,
        s != seq!['+'],
    ensures
        unsigned_number(s.push(c)) is None,
{
    let digits = without_plus(s);
    let longer = without_plus(s.push(c));
    assert(s.push(c)[0] == s[0]);
    assert(longer == digits.push(c));
    if digits.len() == 0 {
        assert(s == seq!['+']);
    }
    if all_digits(longer) {
        assert forall|i: int| 0 <= i < digits.len() implies '0' <= #[trigger] digits[i] <= '9' by {
            assert(longer[i] == digits[i]);
        }
        lemma_digits_value_grows(longer, digits.len() as int);
        assert(longer.take(digits.len() as int) == digits);
    }
}

/// One digit writes its value; what has no digit writes no number.
pub proof fn lemma_number_starts_with_a_digit(c: char)
    ensures
        '0' <= c <= '9' ==> unsigned_number(seq![c]) == Some((c as int - '0' as int) as u64),
        !('0' <= c <= '9') ==> unsigned_number(seq![c]) is None,
        unsigned_number(Seq::<char>::empty()) is None,
{
    reveal_with_fuel(digits_value, 2);
    let s = seq![c];
    assert(s.drop_last().len() == 0);
    assert(s.last() == c);
    if c == '+' {
        assert(without_plus(s).len() == 0);
    } else {
        assert(without_plus(s) == s);
        assert(s[0] == c);
    }
}

/// A number is written in decimal without zeros before it.
pub proof fn lemma_decimal_has_no_leading_zero(n: nat)
    ensures
        decimal(0) == seq!['0'],
        n > 0 ==> decimal(n)[0] != '0',
    decreases n,
{
    assert(decimal(0) =~= seq!['0']);
    if n >= 10 {
        lemma_decimal_has_no_leading_zero(n / 10);
        lemma_decimal_writes(n / 10);
        assert(decimal(n)[0] == decimal(n / 10)[0]);
    }
}

} // verus!
