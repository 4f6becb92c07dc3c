//! Text building blocks: decimal numerals, zero padding, line joining and
//! string comparison.

use vstd::prelude::*;
use vstd::string::StringExecFns;

verus! {

/// The character of a decimal digit `d` (0 to 9).
pub open spec fn digit_char(d: nat) -> char {
    ((48 + d) as u8) as char
}

/// The shortest decimal numeral of `n`, as `Display` writes it.
pub open spec fn decimal(n: nat) -> Seq<char>
    decreases n,
{
    if n < 10 {
        seq![digit_char(n)]
    } else {
        decimal(n / 10).push(digit_char(n % 10))
    }
}

/// `n` written with at least `width` characters, padded on the left with
/// zeros, as `format!("{:>0width$}", n)` writes it.
pub open spec fn zero_padded(n: nat, width: nat) -> Seq<char> {
    let digits = decimal(n);
    if digits.len() >= width {
        digits
    } else {
        Seq::new((width - digits.len()) as nat, |i: int| '0') + digits
    }
}

fn digit_str(d: u32) -> (s: &'static str)
    requires
        d < 10,
    ensures
        s@ == seq![digit_char(d as nat)],
{
    proof {
        reveal_strlit("0");
        reveal_strlit("1");
        reveal_strlit("2");
        reveal_strlit("3");
        reveal_strlit("4");
        reveal_strlit("5");
        reveal_strlit("6");
        reveal_strlit("7");
        reveal_strlit("8");
        reveal_strlit("9");
    }
    match d {
        0 => "0",
        1 => "1",
        2 => "2",
        3 => "3",
        4 => "4",
        5 => "5",
        6 => "6",
        7 => "7",
        8 => "8",
        _ => "9",
    }
}

/// Appends the decimal numeral of `n` to `out`.
pub fn push_decimal(out: &mut String, n: u32)
    ensures
        final(out)@ == old(out)@ + decimal(n as nat),
    decreases n,
{
    if n >= 10 {
        push_decimal(out, n / 10);
    }
    out.append(digit_str(n % 10));
    proof {
        assert(decimal(n as nat) == if n < 10 { seq![digit_char(n as nat)] } else {
            decimal((n / 10) as nat).push(digit_char((n % 10) as nat))
        });
    }
}


/// Number of characters in the decimal numeral of `n`.
pub fn decimal_width(n: u32) -> (w: usize)
    ensures
        w == decimal(n as nat).len(),
        1 <= w <= 10,
    decreases n,
{
    if n < 10 {
        1
    } else {
        let w = decimal_width(n / 10);
        assert(n / 10 < 1_000_000_000 ==> w <= 9) by {
            lemma_decimal_len_small((n / 10) as nat);
        }
        w + 1
    }
}

/// A numeral of a number below `10^k` has at most `k` digits.
pub proof fn lemma_decimal_len_small(n: nat)
    ensures
        n < 10 ==> decimal(n).len() == 1,
        n < 100 ==> decimal(n).len() <= 2,
        n < 1000 ==> decimal(n).len() <= 3,
        n < 10_000 ==> decimal(n).len() <= 4,
        n < 100_000 ==> decimal(n).len() <= 5,
        n < 1_000_000 ==> decimal(n).len() <= 6,
        n < 10_000_000 ==> decimal(n).len() <= 7,
        n < 100_000_000 ==> decimal(n).len() <= 8,
        n < 1_000_000_000 ==> decimal(n).len() <= 9,
        n < 10_000_000_000 ==> decimal(n).len() <= 10,
        decimal(n).len() >= 1,
    decreases n,
{
    if n >= 10 {
        lemma_decimal_len_small(n / 10);
    }
}

/// Every character of a decimal numeral is one of `0` to `9`.
pub proof fn lemma_decimal_digits(n: nat)
    ensures
        forall|i: int| 0 <= i < decimal(n).len() ==> '0' <= #[trigger] decimal(n)[i] <= '9',
    decreases n,
{
    if n >= 10 {
        lemma_decimal_digits(n / 10);
        assert forall|i: int| 0 <= i < decimal(n).len() implies '0' <= #[trigger] decimal(n)[i] <= '9' by {
            if i < decimal(n / 10).len() {
                assert(decimal(n)[i] == decimal(n / 10)[i]);
            }
        }
    }
}

/// Appends `n` written with at least `width` characters, zero padded on the
/// left, to `out`.
pub fn push_zero_padded(out: &mut String, n: u32, width: usize)
    ensures
        final(out)@ == old(out)@ + zero_padded(n as nat, width as nat),
{
    let digits = decimal_width(n);
    let ghost start = out@;
    if digits < width {
        let zeros = width - digits;
        let mut i: usize = 0;
        while i < zeros
            invariant
                i <= zeros,
                zeros == width - digits,
                out@ == start + Seq::new(i as nat, |k: int| '0'),
            decreases zeros - i,
        {
            proof {
                reveal_strlit("0");
            }
            out.append("0");
            i = i + 1;
            assert(out@ =~= start + Seq::new(i as nat, |k: int| '0'));
        }
    }
    push_decimal(out, n);
    assert(out@ =~= start + zero_padded(n as nat, width as nat));
}

/// `n` written with at least `width` characters, zero padded on the left.
pub fn zero_pad(n: u32, width: usize) -> (s: String)
    ensures
        s@ == zero_padded(n as nat, width as nat),
{
    let mut s = String::new();
    push_zero_padded(&mut s, n, width);
    assert(s@ =~= zero_padded(n as nat, width as nat));
    s
}

/// The decimal numeral of `n`.
pub fn decimal_string(n: u32) -> (s: String)
    ensures
        s@ == decimal(n as nat),
{
    let mut s = String::new();
    push_decimal(&mut s, n);
    assert(s@ =~= decimal(n as nat));
    s
}

/// Whether two texts are equal.
pub fn same_text(a: &str, b: &str) -> (r: bool)
    ensures
        r == (a@ == b@),
{
    let a_owned = a.to_owned();
    let b_owned = b.to_owned();
    a_owned == b_owned
}


/// The decimal numeral of a signed number, with a leading `-` when it is
/// negative, as `Display` writes it.
pub open spec fn signed_decimal(n: int) -> Seq<char> {
    if n < 0 {
        seq!['-'] + decimal((-n) as nat)
    } else {
        decimal(n as nat)
    }
}

/// Appends the decimal numeral of the signed number `n` to `out`.
pub fn push_signed_decimal(out: &mut String, n: i32)
    ensures
        final(out)@ == old(out)@ + signed_decimal(n as int),
{
    if n < 0 {
        proof {
            reveal_strlit("-");
        }
        out.append("-");
        let magnitude: u32 = if n == i32::MIN {
            2147483648u32
        } else {
            (-n) as u32
        };
        push_decimal(out, magnitude);
        assert(out@ =~= old(out)@ + signed_decimal(n as int));
    } else {
        push_decimal(out, n as u32);
    }
}

/// Texts joined with a separator between each two of them.
pub open spec fn joined(parts: Seq<Seq<char>>, sep: Seq<char>) -> Seq<char>
    decreases parts.len(),
{
    if parts.len() == 0 {
        Seq::empty()
    } else if parts.len() == 1 {
        parts[0]
    } else {
        joined(parts.drop_last(), sep) + sep + parts.last()
    }
}

/// A joined text is no longer than its parts and separators together.
pub proof fn lemma_joined_len(parts: Seq<Seq<char>>, sep: Seq<char>, bound: nat)
    requires
        forall|i: int| 0 <= i < parts.len() ==> #[trigger] parts[i].len() <= bound,
    ensures
        joined(parts, sep).len() <= parts.len() * (bound + sep.len()),
    decreases parts.len(),
{
    if parts.len() > 1 {
        let rest = parts.drop_last();
        assert forall|i: int| 0 <= i < rest.len() implies #[trigger] rest[i].len() <= bound by {
            assert(rest[i] == parts[i]);
        }
        lemma_joined_len(rest, sep, bound);
        let n = parts.len() as int;
        let b = (bound + sep.len()) as int;
        assert((n - 1) * b + b == n * b) by (nonlinear_arith);
    } else if parts.len() == 1 {
        assert(parts[0].len() <= bound);
    }
}

/// A signed 32-bit numeral has at most eleven characters.
pub proof fn lemma_signed_decimal_len(n: int)
    requires
        i32::MIN <= n <= i32::MAX,
    ensures
        signed_decimal(n).len() <= 11,
        0 <= n < 10 ==> signed_decimal(n).len() == 1,
        0 <= n < 100 ==> signed_decimal(n).len() <= 2,
{
    if n < 0 {
        lemma_decimal_len_small((-n) as nat);
    } else {
        lemma_decimal_len_small(n as nat);
    }
}

/// The texts of a list of strings.
pub open spec fn texts(list: Seq<String>) -> Seq<Seq<char>> {
    list.map_values(|s: String| s@)
}

/// Joins the strings of `list`, with `sep` between each two of them.
pub fn join(list: &Vec<String>, sep: &str) -> (res: String)
    ensures
        res@ == joined(texts(list@), sep@),
{
    let mut res = String::new();
    let ghost parts = texts(list@);
    let mut i: usize = 0;
    while i < list.len()
        invariant
            i <= list.len(),
            parts == texts(list@),
            res@ == joined(parts.take(i as int), sep@),
        decreases list.len() - i,
    {
        if i != 0 {
            res.append(sep);
        }
        res.append(list[i].as_str());
        proof {
            assert(parts.take(i + 1).drop_last() =~= parts.take(i as int));
            assert(parts.take(i + 1).last() == list@[i as int]@);
            if i == 0 {
                assert(res@ =~= joined(parts.take(1), sep@));
            }
        }
        i = i + 1;
    }
    assert(parts.take(list.len() as int) =~= parts);
    res
}


/// The value of a sequence of ASCII digits.
pub open spec fn digits_value(digits: Seq<char>) -> int
    decreases digits.len(),
{
    if digits.len() == 0 {
        0
    } else {
        digits_value(digits.drop_last()) * 10 + (digits.last() as int - 48)
    }
}

/// Whether a character is one of the ASCII digits `0` to `9`.
pub open spec fn is_ascii_digit(c: char) -> bool {
    '0' <= c <= '9'
}

/// Whether every character of a text is an ASCII digit.
pub open spec fn all_ascii_digits(digits: Seq<char>) -> bool {
    forall|i: int| 0 <= i < digits.len() ==> is_ascii_digit(#[trigger] digits[i])
}

/// A text without its leading `+` or `-` sign, if it has one.
pub open spec fn unsigned_part(text: Seq<char>) -> Seq<char> {
    if text.len() > 0 && (text[0] == '-' || text[0] == '+') {
        text.drop_first()
    } else {
        text
    }
}

/// The number that `str::parse::<i32>` reads from a text: an optional `+`
/// or `-` sign, then one or more ASCII digits, with a value in the range of
/// `i32`; `None` for any other text.
pub open spec fn parsed_i32(text: Seq<char>) -> Option<int> {
    let digits = unsigned_part(text);
    let magnitude = digits_value(digits);
    let value = if text.len() > 0 && text[0] == '-' {
        -magnitude
    } else {
        magnitude
    };
    if digits.len() > 0 && all_ascii_digits(digits) && i32::MIN <= value <= i32::MAX {
        Some(value)
    } else {
        None
    }
}

/// Reading back a numeral gives the number: `str::parse` undoes
/// `Display` on every number that fits `i32`.
pub proof fn lemma_parse_decimal(n: nat)
    requires
        n <= i32::MAX,
    ensures
        parsed_i32(decimal(n)) == Some(n as int),
{
    lemma_decimal_value(n);
    lemma_decimal_digits(n);
    let d = decimal(n);
    assert(is_ascii_digit(d[0]));
    assert(unsigned_part(d) == d);
}

proof fn lemma_decimal_value(n: nat)
    ensures
        digits_value(decimal(n)) == n,
        all_ascii_digits(decimal(n)),
    decreases n,
{
    lemma_decimal_digits(n);
    if n >= 10 {
        lemma_decimal_value(n / 10);
        let d = decimal(n);
        assert(d.drop_last() =~= decimal(n / 10));
        assert(d.last() == digit_char(n % 10));
        assert(digit_char(n % 10) as int == 48 + n % 10);
        assert(digits_value(d) == digits_value(d.drop_last()) * 10 + (d.last() as int - 48));
        assert(n == (n / 10) * 10 + n % 10);
    } else {
        let d = decimal(n);
        assert(d.drop_last() =~= Seq::<char>::empty());
        assert(digit_char(n) as int == 48 + n);
        assert(digits_value(d) == digits_value(d.drop_last()) * 10 + (d.last() as int - 48));
    }
}

proof fn lemma_digits_value_nonneg(digits: Seq<char>)
    requires
        forall|i: int| 0 <= i < digits.len() ==> is_ascii_digit(#[trigger] digits[i]),
    ensures
        digits_value(digits) >= 0,
    decreases digits.len(),
{
    if digits.len() > 0 {
        assert(is_ascii_digit(digits[digits.len() - 1]));
        lemma_digits_value_nonneg(digits.drop_last());
    }
}

proof fn lemma_digits_value_grows(digits: Seq<char>, k: int)
    requires
        0 <= k <= digits.len(),
        forall|i: int| 0 <= i < digits.len() ==> is_ascii_digit(#[trigger] digits[i]),
    ensures
        digits_value(digits.take(k)) <= digits_value(digits),
    decreases digits.len() - k,
{
    if k < digits.len() {
        lemma_digits_value_grows(digits, k + 1);
        assert(digits.take(k + 1).drop_last() =~= digits.take(k));
        assert(is_ascii_digit(digits.take(k + 1).last()));
        assert forall|i: int| 0 <= i < digits.take(k).len() implies is_ascii_digit(#[trigger] digits.take(k)[i]) by {
            assert(digits.take(k)[i] == digits[i]);
        }
        lemma_digits_value_nonneg(digits.take(k));
    } else {
        assert(digits.take(k) =~= digits);
    }
}

/// Reads a signed 32-bit number from a text as `str::parse::<i32>` does;
/// see [`parsed_i32`].
pub fn parse_i32(text: &str) -> (value: Option<i32>)
    ensures
        value matches Some(v) ==> parsed_i32(text@) == Some(v as int),
        value is None ==> parsed_i32(text@) is None,
{
    let n = text.unicode_len();
    let mut negative = false;
    let mut start: usize = 0;
    if n > 0 {
        let first = text.get_char(0);
        if first == '-' {
            negative = true;
            start = 1;
        } else if first == '+' {
            start = 1;
        }
    }
    let ghost digits = unsigned_part(text@);
    assert(digits =~= text@.subrange(start as int, n as int));
    if start >= n {
        return None;
    }
    // 2^31, the largest magnitude that any i32 has.
    let limit: u64 = 0x8000_0000;
    let mut magnitude: u64 = 0;
    let mut i: usize = start;
    while i < n
        invariant
            start <= i <= n,
            n == text@.len(),
            limit == 0x8000_0000,
            digits == unsigned_part(text@),
            negative == (text@.len() > 0 && text@[0] == '-'),
            digits =~= text@.subrange(start as int, n as int),
            magnitude == digits_value(digits.take(i - start)),
            magnitude <= limit,
            forall|k: int| 0 <= k < i - start ==> is_ascii_digit(#[trigger] digits[k]),
        decreases n - i,
    {
        let c = text.get_char(i);
        assert(c == digits[i - start]);
        if c < '0' || c > '9' {
            assert(!is_ascii_digit(digits[i - start]));
            assert(!all_ascii_digits(digits));
            assert(parsed_i32(text@) is None);
            return None;
        }
        assert(48 <= c as u32 <= 57);
        let d: u64 = (c as u32 - 48) as u64;
        assert(d < 10);
        assert(magnitude * 10 <= 0x5_0000_0000);
        assert(digits.take(i - start + 1).drop_last() =~= digits.take(i - start));
        let next = magnitude * 10 + d;
        if next > limit {
            proof {
                let prefix = digits.take(i - start + 1);
                assert(digits_value(prefix) == next);
                assert forall|k: int| 0 <= k < digits.len() && k <= i - start implies is_ascii_digit(#[trigger] digits[k]) by {
                    if k == i - start {
                        assert(digits[k] == c);
                    }
                }
                // Any longer run of digits is at least as large.
                if all_ascii_digits(digits) {
                    lemma_digits_value_grows(digits, i - start + 1);
                    assert(digits_value(digits) > 0x8000_0000);
                }
                assert(parsed_i32(text@) is None);
            }
            return None;
        }
        magnitude = next;
        i = i + 1;
    }
    assert(digits.take(n - start) =~= digits);
    if negative {
        Some((0 - magnitude as i64) as i32)
    } else if magnitude < limit {
        Some(magnitude as i32)
    } else {
        None
    }
}


/// Whether `text` ends with `suffix`.
pub open spec fn ends_with(text: Seq<char>, suffix: Seq<char>) -> bool {
    suffix.len() <= text.len() && text.subrange(text.len() - suffix.len(), text.len() as int)
        == suffix
}

/// A text ends with what was appended last.
pub proof fn lemma_ends_with_append(prefix: Seq<char>, suffix: Seq<char>)
    ensures
        ends_with(prefix + suffix, suffix),
{
    let t = prefix + suffix;
    assert(t.subrange(t.len() - suffix.len(), t.len() as int) =~= suffix);
}

} // verus!
