//! Verified text rendering: decimal digits of integers, fixed-point
//! rendering of micro-degree coordinates, and JSON string escaping.
//! Every public function produces exactly the character sequence its
//! spec-level counterpart describes.
use vstd::prelude::*;
use vstd::string::StrSliceExecFns;
use vstd::string::StringExecFns;

verus! {

/// Relies on std's `String::push`: it appends exactly the one given
/// character to the end of the string.
pub assume_specification[ String::push ](s: &mut String, c: char)
    ensures
        final(s)@ == old(s)@ + seq![c],
;

/// The decimal digit character for `d` (0 through 9).
pub open spec fn spec_digit_char(d: nat) -> char {
    if d == 0 {
        '0'
    } else if d == 1 {
        '1'
    } else if d == 2 {
        '2'
    } else if d == 3 {
        '3'
    } else if d == 4 {
        '4'
    } else if d == 5 {
        '5'
    } else if d == 6 {
        '6'
    } else if d == 7 {
        '7'
    } else if d == 8 {
        '8'
    } else {
        '9'
    }
}

/// The decimal digits of `n`, most significant first, with no leading
/// zeros (`0` renders as "0").
pub open spec fn spec_digits(n: nat) -> Seq<char>
    decreases n,
{
    if n < 10 {
        seq![spec_digit_char(n)]
    } else {
        spec_digits(n / 10) + seq![spec_digit_char(n % 10)]
    }
}

/// The decimal rendering of a signed integer: a leading '-' for
/// negative values, then the digits of the absolute value.
pub open spec fn spec_int_str(n: int) -> Seq<char> {
    if n < 0 {
        seq!['-'] + spec_digits((-n) as nat)
    } else {
        spec_digits(n as nat)
    }
}

/// Exactly `width` decimal digits of `n`, least significant last,
/// left-padded with zeros.
pub open spec fn spec_padded_digits(n: nat, width: nat) -> Seq<char>
    decreases width,
{
    if width == 0 {
        Seq::empty()
    } else {
        spec_padded_digits(n / 10, (width - 1) as nat) + seq![spec_digit_char(n % 10)]
    }
}

/// `s` with every trailing '0' removed.
pub open spec fn spec_trim_trailing_zeros(s: Seq<char>) -> Seq<char>
    decreases s.len(),
{
    if s.len() > 0 && s.last() == '0' {
        spec_trim_trailing_zeros(s.drop_last())
    } else {
        s
    }
}

pub open spec fn spec_pow10(w: nat) -> nat
    decreases w,
{
    if w == 0 {
        1
    } else {
        10 * spec_pow10((w - 1) as nat)
    }
}

/// The decimal rendering of a coordinate held in micro-degrees
/// (millionths of a degree): sign, integer part, and, unless it is
/// zero, the six-digit fractional part with trailing zeros removed.
/// `19076000` renders as "19.076", `-500000` as "-0.5".
pub open spec fn spec_micro_decimal(n: int) -> Seq<char> {
    let a = if n < 0 {
        (-n) as nat
    } else {
        n as nat
    };
    let sign = if n < 0 {
        seq!['-']
    } else {
        Seq::<char>::empty()
    };
    let frac = a % 1000000;
    let whole = sign + spec_digits(a / 1000000);
    if frac == 0 {
        whole
    } else {
        whole + seq!['.'] + spec_trim_trailing_zeros(spec_padded_digits(frac, 6))
    }
}

/// The escape of one character inside a JSON string literal: quote,
/// backslash and the common control characters get a two-character
/// escape, other control characters the \u00XX form, and everything
/// else stands for itself.
pub open spec fn spec_escape_char(c: char) -> Seq<char> {
    if c == '"' {
        seq!['\\', '"']
    } else if c == '\\' {
        seq!['\\', '\\']
    } else if c == '\n' {
        seq!['\\', 'n']
    } else if c == '\r' {
        seq!['\\', 'r']
    } else if c == '\t' {
        seq!['\\', 't']
    } else if (c as nat) < 32 {
        seq!['\\', 'u', '0', '0', spec_digit_char((c as nat) / 16), spec_hex_char((c as nat) % 16)]
    } else {
        seq![c]
    }
}

/// The lower-case hexadecimal digit character for `d` (0 through 15).
pub open spec fn spec_hex_char(d: nat) -> char {
    if d < 10 {
        spec_digit_char(d)
    } else if d == 10 {
        'a'
    } else if d == 11 {
        'b'
    } else if d == 12 {
        'c'
    } else if d == 13 {
        'd'
    } else if d == 14 {
        'e'
    } else {
        'f'
    }
}

/// `s` with every character escaped for use inside a JSON string
/// literal.
pub open spec fn spec_json_escape(s: Seq<char>) -> Seq<char>
    decreases s.len(),
{
    if s.len() == 0 {
        Seq::empty()
    } else {
        spec_json_escape(s.drop_last()) + spec_escape_char(s.last())
    }
}

fn digit_str(d: u64) -> (r: &'static str)
    requires
        d < 10,
    ensures
        r@ == seq![spec_digit_char(d as nat)],
{
    let r = match d {
        0 => "0",
        1 => "1",
        2 => "2",
        3 => "3",
        4 => "4",
        5 => "5",
        6 => "6",
        7 => "7",
        8 => "8",
        _ => "9",
    };
    proof {
        reveal_strlit("0");
        reveal_strlit("1");
        reveal_strlit("2");
        reveal_strlit("3");
        reveal_strlit("4");
        reveal_strlit("5");
        reveal_strlit("6");
        reveal_strlit("7");
        reveal_strlit("8");
        reveal_strlit("9");
        assert(r@ =~= seq![spec_digit_char(d as nat)]);
    }
    r
}

/// Appends the decimal digits of `n` to `out`.
pub fn append_digits_u64(out: &mut String, n: u64)
    ensures
        final(out)@ == old(out)@ + spec_digits(n as nat),
    decreases n,
{
    if n >= 10 {
        append_digits_u64(out, n / 10);
        out.append(digit_str(n % 10));
        proof {
            assert(final(out)@ =~= old(out)@ + spec_digits(n as nat));
        }
    } else {
        out.append(digit_str(n));
        proof {
            assert(spec_digits(n as nat) == seq![spec_digit_char(n as nat)]);
            assert(final(out)@ =~= old(out)@ + spec_digits(n as nat));
        }
    }
}

/// The absolute value of `n` as a `u64` (total: in particular it is
/// defined on the least `i64`).
fn abs_u64(n: i64) -> (r: u64)
    ensures
        n >= 0 ==> r == n,
        n < 0 ==> r == -(n as int),
{
    if n >= 0 {
        n as u64
    } else {
        ((-(n + 1)) as u64) + 1
    }
}

/// Appends the decimal rendering of `n` to `out`, with a leading '-'
/// for negative values.
pub fn append_i64(out: &mut String, n: i64)
    ensures
        final(out)@ == old(out)@ + spec_int_str(n as int),
{
    if n < 0 {
        out.append("-");
        proof {
            reveal_strlit("-");
        }
        let m = abs_u64(n);
        append_digits_u64(out, m);
        proof {
            assert(final(out)@ =~= old(out)@ + spec_int_str(n as int));
        }
    } else {
        append_digits_u64(out, n as u64);
    }
}

/// The decimal rendering of `n`.
pub fn i64_to_string(n: i64) -> (r: String)
    ensures
        r@ == spec_int_str(n as int),
{
    let mut s = String::new();
    append_i64(&mut s, n);
    proof {
        assert(s@ =~= spec_int_str(n as int));
    }
    s
}

fn append_padded_digits(out: &mut String, n: u64, width: u64)
    ensures
        final(out)@ == old(out)@ + spec_padded_digits(n as nat, width as nat),
    decreases width,
{
    if width > 0 {
        append_padded_digits(out, n / 10, width - 1);
        out.append(digit_str(n % 10));
        proof {
            assert(final(out)@ =~= old(out)@ + spec_padded_digits(n as nat, width as nat));
        }
    } else {
        proof {
            assert(final(out)@ =~= old(out)@ + spec_padded_digits(n as nat, 0));
        }
    }
}

proof fn lemma_pow10_values()
    ensures
        spec_pow10(0) == 1,
        spec_pow10(1) == 10,
        spec_pow10(2) == 100,
        spec_pow10(3) == 1000,
        spec_pow10(4) == 10000,
        spec_pow10(5) == 100000,
        spec_pow10(6) == 1000000,
{
    assert(spec_pow10(0) == 1);
    assert(spec_pow10(1) == 10);
    assert(spec_pow10(2) == 100);
    assert(spec_pow10(3) == 1000);
    assert(spec_pow10(4) == 10000);
    assert(spec_pow10(5) == 100000);
    assert(spec_pow10(6) == 1000000);
}

proof fn lemma_trim_padded_step(n: nat, width: nat)
    requires
        width > 0,
        n % 10 == 0,
    ensures
        spec_trim_trailing_zeros(spec_padded_digits(n, width)) == spec_trim_trailing_zeros(
            spec_padded_digits(n / 10, (width - 1) as nat),
        ),
{
    let s = spec_padded_digits(n, width);
    assert(s == spec_padded_digits(n / 10, (width - 1) as nat) + seq![spec_digit_char(n % 10)]);
    assert(s.last() == spec_digit_char(0));
    assert(s.drop_last() =~= spec_padded_digits(n / 10, (width - 1) as nat));
}

proof fn lemma_trim_padded_stops(n: nat, width: nat)
    requires
        width > 0,
        n % 10 != 0,
    ensures
        spec_trim_trailing_zeros(spec_padded_digits(n, width)) == spec_padded_digits(n, width),
{
    let s = spec_padded_digits(n, width);
    assert(s.last() == spec_digit_char(n % 10));
    assert(s.last() != '0');
}

/// The decimal rendering of a micro-degree coordinate, as
/// `spec_micro_decimal` describes it.
pub fn micro_to_decimal(n: i64) -> (r: String)
    ensures
        r@ == spec_micro_decimal(n as int),
{
    let mut s = String::new();
    if n < 0 {
        s.append("-");
        proof {
            reveal_strlit("-");
        }
    }
    let a = abs_u64(n);
    append_digits_u64(&mut s, a / 1000000);
    let frac = a % 1000000;
    if frac > 0 {
        s.append(".");
        proof {
            reveal_strlit(".");
            lemma_pow10_values();
        }
        let ghost trimmed = spec_trim_trailing_zeros(spec_padded_digits(frac as nat, 6));
        let mut g: u64 = frac;
        let mut w: u64 = 6;
        while g % 10 == 0
            invariant
                g > 0,
                w <= 6,
                g < spec_pow10(w as nat),
                spec_trim_trailing_zeros(spec_padded_digits(g as nat, w as nat)) == trimmed,
            decreases w,
        {
            proof {
                lemma_pow10_values();
                if w == 1 {
                    assert(g < 10);
                    assert(g % 10 == g);
                    assert(false);
                }
                lemma_trim_padded_step(g as nat, w as nat);
                assert(((g / 10) as nat) < spec_pow10((w - 1) as nat)) by {
                    assert(spec_pow10(w as nat) == 10 * spec_pow10((w - 1) as nat));
                    assert(g as int / 10 < spec_pow10((w - 1) as nat)) by (nonlinear_arith)
                        requires
                            (g as int) < 10 * spec_pow10((w - 1) as nat),
                            g >= 0,
                            spec_pow10((w - 1) as nat) > 0,
                    ;
                }
            }
            g = g / 10;
            w = w - 1;
        }
        proof {
            lemma_trim_padded_stops(g as nat, w as nat);
        }
        append_padded_digits(&mut s, g, w);
        proof {
            assert(s@ =~= spec_micro_decimal(n as int));
        }
    } else {
        proof {
            assert(s@ =~= spec_micro_decimal(n as int));
        }
    }
    s
}

fn hex_str(d: u64) -> (r: &'static str)
    requires
        d < 16,
    ensures
        r@ == seq![spec_hex_char(d as nat)],
{
    if d < 10 {
        digit_str(d)
    } else {
        let r = match d {
            10 => "a",
            11 => "b",
            12 => "c",
            13 => "d",
            14 => "e",
            _ => "f",
        };
        proof {
            reveal_strlit("a");
            reveal_strlit("b");
            reveal_strlit("c");
            reveal_strlit("d");
            reveal_strlit("e");
            reveal_strlit("f");
            assert(r@ =~= seq![spec_hex_char(d as nat)]);
        }
        r
    }
}

fn append_escaped_char(out: &mut String, c: char)
    ensures
        final(out)@ == old(out)@ + spec_escape_char(c),
{
    if c == '"' {
        out.append("\\\"");
        proof {
            reveal_strlit("\\\"");
            assert(final(out)@ =~= old(out)@ + spec_escape_char(c));
        }
    } else if c == '\\' {
        out.append("\\\\");
        proof {
            reveal_strlit("\\\\");
            assert(final(out)@ =~= old(out)@ + spec_escape_char(c));
        }
    } else if c == '\n' {
        out.append("\\n");
        proof {
            reveal_strlit("\\n");
            assert(final(out)@ =~= old(out)@ + spec_escape_char(c));
        }
    } else if c == '\r' {
        out.append("\\r");
        proof {
            reveal_strlit("\\r");
            assert(final(out)@ =~= old(out)@ + spec_escape_char(c));
        }
    } else if c == '\t' {
        out.append("\\t");
        proof {
            reveal_strlit("\\t");
            assert(final(out)@ =~= old(out)@ + spec_escape_char(c));
        }
    } else if (c as u32) < 32 {
        out.append("\\u00");
        let v = (c as u32) as u64;
        out.append(digit_str(v / 16));
        out.append(hex_str(v % 16));
        proof {
            reveal_strlit("\\u00");
            assert(final(out)@ =~= old(out)@ + spec_escape_char(c));
        }
    } else {
        out.push(c);
        proof {
            assert(final(out)@ =~= old(out)@ + spec_escape_char(c));
        }
    }
}

/// Appends `s`, escaped for use inside a JSON string literal, to
/// `out`.
pub fn append_json_escaped(out: &mut String, s: &str)
    ensures
        final(out)@ == old(out)@ + spec_json_escape(s@),
{
    let n = s.unicode_len();
    let mut i: usize = 0;
    while i < n
        invariant
            n == s@.len(),
            i <= n,
            out@ == old(out)@ + spec_json_escape(s@.take(i as int)),
        decreases n - i,
    {
        let c = s.get_char(i);
        append_escaped_char(out, c);
        proof {
            assert(s@.take(i + 1).drop_last() =~= s@.take(i as int));
            assert(s@.take(i + 1).last() == s@[i as int]);
            assert(out@ =~= old(out)@ + spec_json_escape(s@.take(i + 1)));
        }
        i = i + 1;
    }
    proof {
        assert(s@.take(n as int) =~= s@);
    }
}

} // verus!
