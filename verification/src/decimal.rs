//! Unsigned decimal numerals: the text form of offsets and other counts.
use vstd::prelude::*;

verus! {

/// `c` is one of the ASCII digits `0` to `9`.
pub open spec fn is_digit_char(c: char) -> bool {
    '0' <= c && c <= '9'
}

/// The number that the digit `c` stands for.
pub open spec fn digit_value(c: char) -> nat {
    (c as int - '0' as int) as nat
}

/// The digit that stands for `d`, for `d < 10`.
pub open spec fn digit_char(d: nat) -> char {
    (d + '0' as int) as char
}

/// The number written by the digits of `s`, most significant first.
pub open spec fn digits_value(s: Seq<char>) -> nat
    decreases s.len(),
{
    if s.len() == 0 {
        0
    } else {
        digits_value(s.drop_last()) * 10 + digit_value(s.last())
    }
}

/// The part of `s` that holds the digits: `s` without one leading `+`.
pub open spec fn unsigned_body(s: Seq<char>) -> Seq<char> {
    if s.len() > 0 && s[0] == '+' {
        s.drop_first()
    } else {
        s
    }
}

/// `s` is an unsigned decimal numeral: an optional `+`, then one or more digits,
/// and nothing else (no sign `-`, no space).
pub open spec fn is_unsigned_decimal(s: Seq<char>) -> bool {
    let body = unsigned_body(s);
    &&& body.len() > 0
    &&& forall|i: int| 0 <= i < body.len() ==> is_digit_char(#[trigger] body[i])
}

/// The number that the numeral `s` writes.
pub open spec fn unsigned_decimal_value(s: Seq<char>) -> nat {
    digits_value(unsigned_body(s))
}

/// What reading `s` as an unsigned integer of at most `max` gives.
pub open spec fn parse_unsigned(s: Seq<char>, max: nat) -> Option<nat> {
    if is_unsigned_decimal(s) && unsigned_decimal_value(s) <= max {
        Some(unsigned_decimal_value(s))
    } else {
        None
    }
}

/// The shortest decimal numeral of `n`: no sign, no leading zero.
pub open spec fn decimal_digits(n: nat) -> Seq<char>
    decreases n,
{
    if n < 10 {
        seq![digit_char(n)]
    } else {
        decimal_digits(n / 10).push(digit_char(n % 10))
    }
}

/// A prefix of a numeral never writes a larger number than the whole.
proof fn lemma_prefix_value_le(t: Seq<char>, k: int)
    requires
        0 <= k <= t.len(),
    ensures
        digits_value(t.take(k)) <= digits_value(t),
    decreases t.len(),
{
    if k < t.len() {
        lemma_prefix_value_le(t.drop_last(), k);
        assert(t.drop_last().take(k) =~= t.take(k));
    } else {
        assert(t.take(k) =~= t);
    }
}

/// One more digit: the value of the first `k + 1` characters.
proof fn lemma_take_one_more(t: Seq<char>, k: int)
    requires
        0 <= k < t.len(),
    ensures
        digits_value(t.take(k + 1)) == digits_value(t.take(k)) * 10 + digit_value(t[k]),
{
    assert(t.take(k + 1).drop_last() =~= t.take(k));
}

/// The numeral of `n` is made of digits and writes `n`.
proof fn lemma_decimal_digits(n: nat)
    ensures
        decimal_digits(n).len() > 0,
        forall|i: int| 0 <= i < decimal_digits(n).len() ==> is_digit_char(#[trigger] decimal_digits(n)[i]),
        digits_value(decimal_digits(n)) == n,
    decreases n,
{
    if n >= 10 {
        lemma_decimal_digits(n / 10);
        let s = decimal_digits(n);
        assert(s.drop_last() =~= decimal_digits(n / 10));
        assert(s.last() == digit_char(n % 10));
        assert(digit_value(digit_char(n % 10)) == n % 10);
        assert((n / 10) * 10 + n % 10 == n) by (nonlinear_arith);
        assert(digits_value(s) == digits_value(s.drop_last()) * 10 + digit_value(s.last()));
        assert(digits_value(s.drop_last()) == n / 10);
        assert forall|i: int| 0 <= i < s.len() implies is_digit_char(#[trigger] s[i]) by {
            if i < s.len() - 1 {
                assert(s[i] == decimal_digits(n / 10)[i]);
            }
        }
    } else {
        let s = decimal_digits(n);
        assert(s.drop_last() =~= Seq::<char>::empty());
        assert(digits_value(s.drop_last()) == 0);
        assert(digit_value(digit_char(n)) == n);
    }
}

/// Writing a number and reading it back gives the number: the numeral of `n` is
/// an unsigned decimal numeral with no sign, and reading it with any bound of at
/// least `n` gives `n`.
pub proof fn law_numeral_round_trip(n: nat, max: nat)
    requires
        n <= max,
    ensures
        is_unsigned_decimal(decimal_digits(n)),
        decimal_digits(n)[0] != '+',
        parse_unsigned(decimal_digits(n), max) == Some(n),
{
    lemma_decimal_digits(n);
    let s = decimal_digits(n);
    assert(is_digit_char(s[0]));
    assert(unsigned_body(s) == s);
}

/// The numeral of a number has no leading zero: its first digit is `0` only for
/// the number 0 itself, whose numeral is the single digit `0`.
pub proof fn law_numeral_no_leading_zero(n: nat)
    ensures
        n == 0 ==> decimal_digits(n) == seq!['0'],
        n > 0 ==> decimal_digits(n)[0] != '0',
    decreases n,
{
    if n >= 10 {
        law_numeral_no_leading_zero(n / 10);
        lemma_decimal_digits(n / 10);
        assert(decimal_digits(n)[0] == decimal_digits(n / 10)[0]);
    }
}

/// Reading never gives a number above the bound it is asked for.
pub proof fn law_parse_within_bound(s: Seq<char>, max: nat)
    ensures
        parse_unsigned(s, max) matches Some(v) ==> v <= max,
{
}

/// Empty text, and a lone `+`, are no numerals.
pub proof fn law_parse_refuses_empty(max: nat)
    ensures
        parse_unsigned(Seq::<char>::empty(), max) is None,
        parse_unsigned(seq!['+'], max) is None,
{
    assert(seq!['+'].drop_first() =~= Seq::<char>::empty());
}

/// A character other than an ASCII digit, anywhere but as a leading `+`, makes
/// the text no numeral: no `-`, no space, no other sign or digit.
pub proof fn law_parse_refuses_stray_char(s: Seq<char>, i: int, max: nat)
    requires
        0 <= i < s.len(),
        s[i] < '0' || s[i] > '9',
        !(i == 0 && s[i] == '+'),
    ensures
        parse_unsigned(s, max) is None,
{
    let body = unsigned_body(s);
    if s.len() > 0 && s[0] == '+' {
        assert(body[i - 1] == s[i]);
    } else {
        assert(body[i] == s[i]);
    }
}

/// One leading `+` changes nothing.
pub proof fn law_parse_plus_sign(s: Seq<char>, max: nat)
    requires
        s.len() == 0 || s[0] != '+',
    ensures
        parse_unsigned(seq!['+'] + s, max) == parse_unsigned(s, max),
{
    assert((seq!['+'] + s).drop_first() =~= s);
}

/// A single digit reads as the number it stands for.
pub proof fn law_parse_single_digit(c: char, max: nat)
    requires
        '0' <= c <= '9',
    ensures
        parse_unsigned(seq![c], max) == (if c as int - '0' as int <= max {
            Some((c as int - '0' as int) as nat)
        } else {
            None
        }),
{
    let s = seq![c];
    assert(s.drop_last() =~= Seq::<char>::empty());
    assert(digits_value(s.drop_last()) == 0);
    assert(digits_value(s) == digit_value(c));
    assert(unsigned_body(s) == s);
    assert(is_digit_char(s[0]));
    assert(is_unsigned_decimal(s));
}

/// Appending a digit `d` to a numeral of value `v` (without sign) gives the value
/// `10 * v + d`, refused only where that exceeds the bound.
pub proof fn law_parse_appends_digit(s: Seq<char>, v: nat, c: char, max: nat)
    requires
        s.len() > 0,
        s[0] != '+',
        parse_unsigned(s, v) == Some(v),
        '0' <= c <= '9',
    ensures
        parse_unsigned(s.push(c), max) == (if 10 * v + (c as int - '0' as int) <= max {
            Some((10 * v + (c as int - '0' as int)) as nat)
        } else {
            None
        }),
{
    let t = s.push(c);
    assert(unsigned_body(s) == s);
    assert(unsigned_body(t) == t);
    assert(t.drop_last() =~= s);
    assert forall|i: int| 0 <= i < t.len() implies is_digit_char(#[trigger] t[i]) by {
        if i < s.len() {
            assert(t[i] == s[i]);
        }
    }
}

/// A numeral is made of ASCII characters only.
proof fn lemma_unsigned_decimal_is_ascii(s: Seq<char>)
    requires
        is_unsigned_decimal(s),
    ensures
        vstd::utf8::is_ascii_chars(s),
{
    let body = unsigned_body(s);
    assert forall|i: int| 0 <= i < s.len() implies '\0' <= #[trigger] s[i] <= '\u{7f}' by {
        if s.len() > 0 && s[0] == '+' {
            if i > 0 {
                assert(s[i] == body[i - 1]);
            }
        } else {
            assert(s[i] == body[i]);
        }
    }
}

/// Reads `s` as an unsigned 64-bit integer, as `str::parse::<u64>` does:
/// an optional `+`, then decimal digits only, and a value that fits.
pub fn parse_u64(s: &str) -> (r: Option<u64>)
    ensures
        r matches Some(v) ==> parse_unsigned(s@, u64::MAX as nat) == Some(v as nat),
        r is None ==> parse_unsigned(s@, u64::MAX as nat) is None,
{
    if !s.is_ascii() {
        proof {
            if is_unsigned_decimal(s@) {
                lemma_unsigned_decimal_is_ascii(s@);
            }
        }
        return None;
    }
    let len = s.unicode_len();
    let ghost body = unsigned_body(s@);
    let mut i: usize = 0;
    if len > 0 && s.get_ascii(0) == 43u8 {
        i = 1;
    }
    let start = i;
    assert(body =~= s@.subrange(start as int, len as int));
    if i >= len {
        return None;
    }
    let mut acc: u64 = 0;
    while i < len
        invariant
            vstd::string::is_ascii(s),
            len == s@.len(),
            start <= i <= len,
            body =~= s@.subrange(start as int, len as int),
            body == unsigned_body(s@),
            forall|j: int| 0 <= j < i - start ==> is_digit_char(#[trigger] body[j]),
            acc == digits_value(body.take(i - start)),
        decreases len - i,
    {
        let b = s.get_ascii(i);
        let ghost k = i - start;
        assert(body[k] == s@[i as int]);
        if b < 48u8 || b > 57u8 {
            assert(!is_digit_char(body[k]));
            return None;
        }
        let d = (b - 48u8) as u64;
        proof {
            lemma_take_one_more(body, k);
            lemma_prefix_value_le(body, k + 1);
        }
        let m = match acc.checked_mul(10) {
            Some(m) => m,
            None => {
                return None;
            },
        };
        acc = match m.checked_add(d) {
            Some(v) => v,
            None => {
                return None;
            },
        };
        i = i + 1;
    }
    assert(body.take(len - start) =~= body);
    Some(acc)
}

/// Reads `s` as a `usize`, as `str::parse::<usize>` does.
pub fn parse_usize(s: &str) -> (r: Option<usize>)
    ensures
        r matches Some(v) ==> parse_unsigned(s@, usize::MAX as nat) == Some(v as nat),
        r is None ==> parse_unsigned(s@, usize::MAX as nat) is None,
{
    match parse_u64(s) {
        Some(v) => {
            if v <= usize::MAX as u64 {
                Some(v as usize)
            } else {
                None
            }
        },
        None => None,
    }
}

/// The one-character string of the digit `d`.
fn digit_str(d: u64) -> (s: &'static str)
    requires
        d < 10,
    ensures
        s@ == seq![digit_char(d as nat)],
{
    if d == 0 {
        proof { reveal_strlit("0"); }
        "0"
    } else if d == 1 {
        proof { reveal_strlit("1"); }
        "1"
    } else if d == 2 {
        proof { reveal_strlit("2"); }
        "2"
    } else if d == 3 {
        proof { reveal_strlit("3"); }
        "3"
    } else if d == 4 {
        proof { reveal_strlit("4"); }
        "4"
    } else if d == 5 {
        proof { reveal_strlit("5"); }
        "5"
    } else if d == 6 {
        proof { reveal_strlit("6"); }
        "6"
    } else if d == 7 {
        proof { reveal_strlit("7"); }
        "7"
    } else if d == 8 {
        proof { reveal_strlit("8"); }
        "8"
    } else {
        proof { reveal_strlit("9"); }
        "9"
    }
}

/// Appends the numeral of `n` to `out`.
fn append_decimal(n: u64, out: &mut String)
    ensures
        final(out)@ == old(out)@ + decimal_digits(n as nat),
    decreases n,
{
    if n >= 10 {
        append_decimal(n / 10, out);
    }
    out.append(digit_str(n % 10));
    proof {
        if n >= 10 {
            assert(decimal_digits(n as nat) == decimal_digits((n / 10) as nat).push(digit_char((n % 10) as nat)));
        }
    }
}

/// The decimal numeral of `n`, as `n.to_string()` writes it.
pub fn u64_to_decimal(n: u64) -> (s: String)
    ensures
        s@ == decimal_digits(n as nat),
{
    let mut s = String::new();
    append_decimal(n, &mut s);
    s
}

/// The decimal numeral of `n`, as `n.to_string()` writes it.
pub fn usize_to_decimal(n: usize) -> (s: String)
    ensures
        s@ == decimal_digits(n as nat),
{
    u64_to_decimal(n as u64)
}

} // verus!
