//! Decimal text of integers, parsing of decimal integers, and the few string
//! operations of std that the library builds its texts with.
use vstd::prelude::*;

verus! {

/// The character of a decimal digit.
pub open spec fn digit_char(d: int) -> char {
    (d + 48) as char
}

/// The decimal representation of `n`, most significant digit first, without leading zeros.
pub open spec fn decimal_digits(n: nat) -> Seq<char>
    decreases n,
{
    if n < 10 {
        seq![digit_char(n as int)]
    } else {
        decimal_digits(n / 10).push(digit_char((n % 10) as int))
    }
}

/// The digits of `n` above its last one: empty for `n == 0`.
pub open spec fn decimal_prefix(n: nat) -> Seq<char> {
    if n == 0 {
        Seq::empty()
    } else {
        decimal_digits(n)
    }
}

/// std's `String::push`: appends one character at the end.
#[verifier::external_body]
pub(crate) fn string_push(s: &mut String, c: char)
    ensures
        final(s)@ == old(s)@.push(c),
{
    s.push(c);
}

/// Whether `c` has the Unicode property White_Space, which is what `char::is_whitespace`
/// and hence `str::trim` test.
pub open spec fn is_white_space(c: char) -> bool {
    ||| ('\u{9}' <= c && c <= '\u{d}')
    ||| c == ' '
    ||| c == '\u{85}'
    ||| c == '\u{a0}'
    ||| c == '\u{1680}'
    ||| ('\u{2000}' <= c && c <= '\u{200a}')
    ||| c == '\u{2028}'
    ||| c == '\u{2029}'
    ||| c == '\u{202f}'
    ||| c == '\u{205f}'
    ||| c == '\u{3000}'
}

/// The text without its leading white space.
pub open spec fn trim_start(s: Seq<char>) -> Seq<char>
    decreases s.len(),
{
    if s.len() > 0 && is_white_space(s[0]) {
        trim_start(s.drop_first())
    } else {
        s
    }
}

/// The text without its trailing white space.
pub open spec fn trim_end(s: Seq<char>) -> Seq<char>
    decreases s.len(),
{
    if s.len() > 0 && is_white_space(s.last()) {
        trim_end(s.drop_last())
    } else {
        s
    }
}

/// The text without leading and trailing white space, as std's `str::trim` gives it.
pub open spec fn trimmed(s: Seq<char>) -> Seq<char> {
    trim_end(trim_start(s))
}

/// std's `str::trim`: the text without leading and trailing characters of the Unicode
/// property White_Space.
#[verifier::external_body]
pub(crate) fn str_trim(s: &str) -> (r: String)
    ensures
        r@ == trimmed(s@),
{
    s.trim().to_string()
}

proof fn lemma_decimal_step(m: nat)
    requires
        m > 0,
    ensures
        decimal_prefix(m) == decimal_prefix(m / 10).push(digit_char((m % 10) as int)),
{
    if m < 10 {
        assert(m / 10 == 0);
        assert(m % 10 == m);
        assert(decimal_prefix(m / 10).push(digit_char((m % 10) as int)) =~= seq![digit_char(m as int)]);
    } else {
        assert(m / 10 > 0);
    }
}

/// The decimal text of `n` (what `to_string` gives for an unsigned integer).
pub fn u64_to_decimal(n: u64) -> (r: String)
    ensures
        r@ == decimal_digits(n as nat),
{
    let mut digits: Vec<char> = Vec::new();
    let mut m: u64 = n;
    proof {
        if n == 0 {
            assert(decimal_digits(0) == seq![digit_char(0)]);
        }
    }
    digits.insert(0, ((m % 10) as u8 + 48u8) as char);
    proof {
        lemma_decimal_step(if n == 0 { 1nat } else { n as nat });
    }
    assert(decimal_digits(n as nat) == decimal_prefix(n as nat / 10) + digits@) by {
        if n == 0 {
            assert(decimal_prefix(0) + digits@ =~= seq![digit_char(0)]);
        } else {
            lemma_decimal_step(n as nat);
            assert(decimal_prefix(n as nat / 10).push(digit_char((n % 10) as int))
                =~= decimal_prefix(n as nat / 10) + digits@);
        }
    }
    m = m / 10;
    while m > 0
        invariant
            decimal_digits(n as nat) == decimal_prefix(m as nat) + digits@,
        decreases m,
    {
        let d: char = ((m % 10) as u8 + 48u8) as char;
        proof {
            lemma_decimal_step(m as nat);
        }
        let ghost old_digits = digits@;
        digits.insert(0, d);
        assert(decimal_prefix(m as nat / 10) + digits@ =~= decimal_prefix(m as nat / 10).push(d) + old_digits);
        m = m / 10;
    }
    assert(digits@ =~= decimal_digits(n as nat));
    let mut r = String::new();
    let mut i: usize = 0;
    while i < digits.len()
        invariant
            0 <= i <= digits.len(),
            r@ == digits@.subrange(0, i as int),
        decreases digits.len() - i,
    {
        string_push(&mut r, digits[i]);
        i = i + 1;
        assert(r@ =~= digits@.subrange(0, i as int));
    }
    assert(r@ =~= digits@);
    r
}

/// Whether `c` is an ASCII decimal digit.
pub open spec fn is_decimal_digit(c: char) -> bool {
    '0' <= c && c <= '9'
}

/// The value of a sequence of decimal digits, most significant first.
pub open spec fn digits_value(s: Seq<char>) -> int
    decreases s.len(),
{
    if s.len() == 0 {
        0
    } else {
        digits_value(s.drop_last()) * 10 + (s.last() as int - 48)
    }
}

/// The digits that `usize::from_str` reads: the text without an optional leading `+`.
pub open spec fn unsigned_digits(s: Seq<char>) -> Seq<char> {
    if s.len() > 0 && s[0] == '+' {
        s.drop_first()
    } else {
        s
    }
}

/// What std's `usize::from_str` gives for a text: an optional `+` followed by at least
/// one decimal digit, whose value fits a `usize`.
pub open spec fn parsed_usize(s: Seq<char>) -> Option<usize> {
    let d = unsigned_digits(s);
    if d.len() > 0 && (forall|i: int| 0 <= i < d.len() ==> is_decimal_digit(#[trigger] d[i]))
        && digits_value(d) <= usize::MAX {
        Some(digits_value(d) as usize)
    } else {
        None
    }
}

proof fn lemma_digits_value_nonneg(s: Seq<char>)
    requires
        forall|i: int| 0 <= i < s.len() ==> is_decimal_digit(#[trigger] s[i]),
    ensures
        digits_value(s) >= 0,
    decreases s.len(),
{
    if s.len() > 0 {
        assert forall|i: int| 0 <= i < s.drop_last().len() implies is_decimal_digit(#[trigger] s.drop_last()[i]) by {
            assert(s.drop_last()[i] == s[i]);
        }
        lemma_digits_value_nonneg(s.drop_last());
    }
}

proof fn lemma_digits_value_monotone(s: Seq<char>, k: int)
    requires
        0 <= k <= s.len(),
        forall|i: int| 0 <= i < s.len() ==> is_decimal_digit(#[trigger] s[i]),
    ensures
        digits_value(s.subrange(0, k)) <= digits_value(s),
    decreases s.len() - k,
{
    if k < s.len() {
        lemma_digits_value_monotone(s, k + 1);
        let t = s.subrange(0, k + 1);
        assert(t.drop_last() =~= s.subrange(0, k));
        assert forall|i: int| 0 <= i < t.drop_last().len() implies is_decimal_digit(#[trigger] t.drop_last()[i]) by {
            assert(t.drop_last()[i] == s[i]);
        }
        lemma_digits_value_nonneg(t.drop_last());
        assert(t.last() == s[k]);
    } else {
        assert(s.subrange(0, k) =~= s);
    }
}

/// Reads a decimal `usize` as std's `usize::from_str` does: `None` where std gives an error.
pub fn parse_usize(s: &str) -> (r: Option<usize>)
    ensures
        r == parsed_usize(s@),
{
    let len = s.unicode_len();
    let mut start: usize = 0;
    if len > 0 && s.get_char(0) == '+' {
        start = 1;
    }
    let ghost d = unsigned_digits(s@);
    assert(d =~= s@.subrange(start as int, len as int));
    if start == len {
        return None;
    }
    let mut value: usize = 0;
    let mut i: usize = start;
    while i < len
        invariant
            start <= i <= len,
            len == s@.len(),
            d =~= s@.subrange(start as int, len as int),
            d == unsigned_digits(s@),
            forall|j: int| 0 <= j < i - start ==> is_decimal_digit(#[trigger] d[j]),
            value as int == digits_value(d.subrange(0, i - start)),
        decreases len - i,
    {
        let c = s.get_char(i);
        if !('0' <= c && c <= '9') {
            assert(d[i - start] == c);
            assert(!is_decimal_digit(d[i - start]));
            assert(!(forall|j: int| 0 <= j < d.len() ==> is_decimal_digit(#[trigger] d[j])));
            assert(parsed_usize(s@) is None);
            return None;
        }
        let dv: usize = (c as u32 - 48) as usize;
        let ghost t = d.subrange(0, i - start + 1);
        assert(t.drop_last() =~= d.subrange(0, i - start));
        assert(t.last() == c);
        if value > (usize::MAX - dv) / 10 {
            proof {
                assert(digits_value(t) == value * 10 + dv);
                assert(value * 10 + dv > usize::MAX) by (nonlinear_arith)
                    requires value > (usize::MAX - dv) / 10, dv <= 9;
                if forall|j: int| 0 <= j < d.len() ==> is_decimal_digit(#[trigger] d[j]) {
                    lemma_digits_value_monotone(d, i - start + 1);
                    assert(d.subrange(0, i - start + 1) =~= t);
                    assert(digits_value(d) > usize::MAX);
                }
                assert(parsed_usize(s@) is None);
            }
            return None;
        }
        assert(value * 10 + dv <= usize::MAX) by (nonlinear_arith)
            requires value <= (usize::MAX - dv) / 10, dv <= 9;
        value = value * 10 + dv;
        i = i + 1;
    }
    assert(d.subrange(0, len - start) =~= d);
    Some(value)
}

} // verus!
