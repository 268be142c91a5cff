//! Verified rendering of numbers into linker-script text.
//!
//! The artifact writes addresses and lengths as `0x`-prefixed uppercase
//! hexadecimal (computed symbols in a fixed ten-character width) and a few
//! plain decimal values. Each rendering function appends to a `String` and
//! is proved to produce exactly the digit sequence its spec function
//! describes.

use vstd::prelude::*;
use vstd::string::StringExecFns;

verus! {

/// The uppercase hexadecimal digit character for `d`.
pub open spec fn hex_digit(d: int) -> char {
    if d == 0 {
        '0'
    } else if d == 1 {
        '1'
    } else if d == 2 {
        '2'
    } else if d == 3 {
        '3'
    } else if d == 4 {
        '4'
    } else if d == 5 {
        '5'
    } else if d == 6 {
        '6'
    } else if d == 7 {
        '7'
    } else if d == 8 {
        '8'
    } else if d == 9 {
        '9'
    } else if d == 10 {
        'A'
    } else if d == 11 {
        'B'
    } else if d == 12 {
        'C'
    } else if d == 13 {
        'D'
    } else if d == 14 {
        'E'
    } else {
        'F'
    }
}

/// The decimal digit character for `d`.
pub open spec fn dec_digit(d: int) -> char {
    if d == 0 {
        '0'
    } else if d == 1 {
        '1'
    } else if d == 2 {
        '2'
    } else if d == 3 {
        '3'
    } else if d == 4 {
        '4'
    } else if d == 5 {
        '5'
    } else if d == 6 {
        '6'
    } else if d == 7 {
        '7'
    } else if d == 8 {
        '8'
    } else {
        '9'
    }
}

/// The uppercase hexadecimal digits of `n`, most significant first,
/// without a prefix.
pub open spec fn hex_digits(n: int) -> Seq<char>
    decreases n,
{
    if n < 16 {
        seq![hex_digit(n)]
    } else {
        hex_digits(n / 16) + seq![hex_digit(n % 16)]
    }
}

/// The decimal digits of `n`, most significant first.
pub open spec fn dec_digits(n: int) -> Seq<char>
    decreases n,
{
    if n < 10 {
        seq![dec_digit(n)]
    } else {
        dec_digits(n / 10) + seq![dec_digit(n % 10)]
    }
}

/// `n` rendered like `{:#X}`: a `0x` prefix, then the digits.
pub open spec fn hex_literal(n: int) -> Seq<char> {
    "0x"@ + hex_digits(n)
}

/// A run of `k` zero characters.
pub open spec fn zeros(k: int) -> Seq<char> {
    Seq::new(if k >= 0 {
        k as nat
    } else {
        0
    }, |i: int| '0')
}

/// How many zeros `{:#010X}` inserts after the prefix: the rendering is
/// ten characters wide in total unless the digits alone overflow it.
pub open spec fn hex_pad_len(n: int) -> int {
    if hex_digits(n).len() < 8 {
        8 - hex_digits(n).len()
    } else {
        0
    }
}

/// `n` rendered like `{:#010X}`: a `0x` prefix, zeros up to eight digits,
/// then the digits.
pub open spec fn hex_padded(n: int) -> Seq<char> {
    "0x"@ + zeros(hex_pad_len(n)) + hex_digits(n)
}

/// How many hexadecimal digits each range of values renders to.
proof fn lemma_hex_digits_len(n: int)
    requires
        0 <= n,
    ensures
        hex_digits(n).len() >= 1,
        (hex_digits(n).len() == 1) == (n < 0x10),
        (hex_digits(n).len() <= 2) == (n < 0x100),
        (hex_digits(n).len() <= 3) == (n < 0x1000),
        (hex_digits(n).len() <= 4) == (n < 0x1_0000),
        (hex_digits(n).len() <= 5) == (n < 0x10_0000),
        (hex_digits(n).len() <= 6) == (n < 0x100_0000),
        (hex_digits(n).len() <= 7) == (n < 0x1000_0000),
    decreases n,
{
    if n >= 16 {
        lemma_hex_digits_len(n / 16);
    }
}

/// A single uppercase hexadecimal digit as text.
fn hex_digit_str(d: u64) -> (r: &'static str)
    requires
        d < 16,
    ensures
        r@ =~= seq![hex_digit(d as int)],
{
    proof {
        reveal_strlit("0");
        reveal_strlit("1");
        reveal_strlit("2");
        reveal_strlit("3");
        reveal_strlit("4");
        reveal_strlit("5");
        reveal_strlit("6");
        reveal_strlit("7");
        reveal_strlit("8");
        reveal_strlit("9");
        reveal_strlit("A");
        reveal_strlit("B");
        reveal_strlit("C");
        reveal_strlit("D");
        reveal_strlit("E");
        reveal_strlit("F");
    }
    if d == 0 {
        "0"
    } else if d == 1 {
        "1"
    } else if d == 2 {
        "2"
    } else if d == 3 {
        "3"
    } else if d == 4 {
        "4"
    } else if d == 5 {
        "5"
    } else if d == 6 {
        "6"
    } else if d == 7 {
        "7"
    } else if d == 8 {
        "8"
    } else if d == 9 {
        "9"
    } else if d == 10 {
        "A"
    } else if d == 11 {
        "B"
    } else if d == 12 {
        "C"
    } else if d == 13 {
        "D"
    } else if d == 14 {
        "E"
    } else {
        "F"
    }
}

/// A single decimal digit as text.
fn dec_digit_str(d: u64) -> (r: &'static str)
    requires
        d < 10,
    ensures
        r@ =~= seq![dec_digit(d as int)],
{
    proof {
        reveal_strlit("0");
        reveal_strlit("1");
        reveal_strlit("2");
        reveal_strlit("3");
        reveal_strlit("4");
        reveal_strlit("5");
        reveal_strlit("6");
        reveal_strlit("7");
        reveal_strlit("8");
        reveal_strlit("9");
    }
    if d == 0 {
        "0"
    } else if d == 1 {
        "1"
    } else if d == 2 {
        "2"
    } else if d == 3 {
        "3"
    } else if d == 4 {
        "4"
    } else if d == 5 {
        "5"
    } else if d == 6 {
        "6"
    } else if d == 7 {
        "7"
    } else if d == 8 {
        "8"
    } else {
        "9"
    }
}

/// Appends the uppercase hexadecimal digits of `n`, without a prefix.
pub(crate) fn push_hex_digits(out: &mut String, n: u64)
    ensures
        final(out)@ == old(out)@ + hex_digits(n as int),
    decreases n,
{
    if n >= 16 {
        push_hex_digits(out, n / 16);
        out.append(hex_digit_str(n % 16));
        assert(out@ =~= old(out)@ + hex_digits(n as int));
    } else {
        out.append(hex_digit_str(n));
    }
}

/// Appends the decimal digits of `n`.
pub(crate) fn push_dec(out: &mut String, n: u64)
    ensures
        final(out)@ == old(out)@ + dec_digits(n as int),
    decreases n,
{
    if n >= 10 {
        push_dec(out, n / 10);
        out.append(dec_digit_str(n % 10));
        assert(out@ =~= old(out)@ + dec_digits(n as int));
    } else {
        out.append(dec_digit_str(n));
    }
}

/// Appends `n` rendered like `{:#X}`.
pub(crate) fn push_hex(out: &mut String, n: u64)
    ensures
        final(out)@ == old(out)@ + hex_literal(n as int),
{
    out.append("0x");
    push_hex_digits(out, n);
    assert(out@ =~= old(out)@ + hex_literal(n as int));
}

/// A run of zero characters, no more than seven of them.
fn zeros_str(k: usize) -> (r: &'static str)
    requires
        k <= 7,
    ensures
        r@ =~= zeros(k as int),
{
    proof {
        reveal_strlit("");
        reveal_strlit("0");
        reveal_strlit("00");
        reveal_strlit("000");
        reveal_strlit("0000");
        reveal_strlit("00000");
        reveal_strlit("000000");
        reveal_strlit("0000000");
    }
    if k == 0 {
        ""
    } else if k == 1 {
        "0"
    } else if k == 2 {
        "00"
    } else if k == 3 {
        "000"
    } else if k == 4 {
        "0000"
    } else if k == 5 {
        "00000"
    } else if k == 6 {
        "000000"
    } else {
        "0000000"
    }
}

/// Appends `n` rendered like `{:#010X}`.
pub(crate) fn push_hex_padded(out: &mut String, n: u64)
    ensures
        final(out)@ == old(out)@ + hex_padded(n as int),
{
    proof {
        lemma_hex_digits_len(n as int);
    }
    let pad: usize = if n < 0x10 {
        7
    } else if n < 0x100 {
        6
    } else if n < 0x1000 {
        5
    } else if n < 0x1_0000 {
        4
    } else if n < 0x10_0000 {
        3
    } else if n < 0x100_0000 {
        2
    } else if n < 0x1000_0000 {
        1
    } else {
        0
    };
    assert(pad == hex_pad_len(n as int));
    out.append("0x");
    out.append(zeros_str(pad));
    push_hex_digits(out, n);
    assert(out@ =~= old(out)@ + hex_padded(n as int));
}

} // verus!
