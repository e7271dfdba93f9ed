//! Rendering unsigned numbers in decimal: plain digits, zero-padded digits,
//! and digits grouped in threes by commas (the thousands separator).

use vstd::prelude::*;
use vstd::string::StrSliceExecFns;
use vstd::string::StringExecFns;

verus! {

/// The decimal digit character for `d` (meaningful for `d < 10`).
pub open spec fn digit_char(d: nat) -> char {
    if d == 0 {
        '0'
    } else if d == 1 {
        '1'
    } else if d == 2 {
        '2'
    } else if d == 3 {
        '3'
    } else if d == 4 {
        '4'
    } else if d == 5 {
        '5'
    } else if d == 6 {
        '6'
    } else if d == 7 {
        '7'
    } else if d == 8 {
        '8'
    } else {
        '9'
    }
}

/// The decimal digits of `n`, most significant first, with no leading
/// zeros (a single `0` for zero).
pub open spec fn dec_digits(n: nat) -> Seq<char>
    decreases n,
{
    if n < 10 {
        seq![digit_char(n)]
    } else {
        dec_digits(n / 10).push(digit_char(n % 10))
    }
}

/// `s` left-padded with `0` characters to at least `width` characters.
pub open spec fn zero_pad(s: Seq<char>, width: nat) -> Seq<char>
    decreases width,
{
    if s.len() >= width {
        s
    } else {
        seq!['0'] + zero_pad(s, (width - 1) as nat)
    }
}

/// `s` with a comma inserted before every group of three characters,
/// counted from the right.
pub open spec fn grouped(s: Seq<char>) -> Seq<char>
    decreases s.len(),
{
    if s.len() <= 3 {
        s
    } else {
        grouped(s.take(s.len() - 3)) + seq![','] + s.skip(s.len() - 3)
    }
}

/// The one-character string for the decimal digit `d`.
fn digit_str(d: u64) -> (r: &'static str)
    requires
        d < 10,
    ensures
        r@ =~= seq![digit_char(d as nat)],
{
    proof {
        reveal_strlit("0");
        reveal_strlit("1");
        reveal_strlit("2");
        reveal_strlit("3");
        reveal_strlit("4");
        reveal_strlit("5");
        reveal_strlit("6");
        reveal_strlit("7");
        reveal_strlit("8");
        reveal_strlit("9");
    }
    if d == 0 {
        "0"
    } else if d == 1 {
        "1"
    } else if d == 2 {
        "2"
    } else if d == 3 {
        "3"
    } else if d == 4 {
        "4"
    } else if d == 5 {
        "5"
    } else if d == 6 {
        "6"
    } else if d == 7 {
        "7"
    } else if d == 8 {
        "8"
    } else {
        "9"
    }
}

/// `n` rendered in decimal.
pub fn u64_string(n: u64) -> (r: String)
    ensures
        r@ == dec_digits(n as nat),
    decreases n,
{
    if n < 10 {
        digit_str(n).to_owned()
    } else {
        let mut s = u64_string(n / 10);
        s.append(digit_str(n % 10));
        proof {
            assert(dec_digits((n / 10) as nat) + seq![digit_char((n % 10) as nat)] =~= dec_digits(
                (n / 10) as nat,
            ).push(digit_char((n % 10) as nat)));
        }
        s
    }
}

/// `s`, known to hold `len` characters, left-padded with zeros to `width`.
fn zero_pad_string(s: String, len: usize, width: usize) -> (r: String)
    requires
        len == s@.len(),
    ensures
        r@ == zero_pad(s@, width as nat),
    decreases width,
{
    if width <= len {
        s
    } else {
        let rest = zero_pad_string(s, len, width - 1);
        let mut z: String = "0".to_owned();
        z.append(rest.as_str());
        proof {
            reveal_strlit("0");
            assert("0"@ =~= seq!['0']);
        }
        z
    }
}

/// `n` rendered in decimal, left-padded with zeros to at least `width` digits.
pub fn u64_string_padded(n: u64, width: usize) -> (r: String)
    ensures
        r@ == zero_pad(dec_digits(n as nat), width as nat),
{
    let s = u64_string(n);
    let len = s.as_str().unicode_len();
    zero_pad_string(s, len, width)
}

/// Relies on `separator::Separatable` for `u64`: renders the decimal digits
/// with a comma inserted before every group of three digits from the right.
#[verifier::external_body]
pub(crate) fn separated_u64(n: u64) -> (r: String)
    ensures
        r@ == grouped(dec_digits(n as nat)),
{
    separator::Separatable::separated_string(&n)
}

} // verus!
