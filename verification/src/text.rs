//! Text helpers shared by the flows.

use vstd::prelude::*;

verus! {

/// `str`'s `==`: true exactly when the two texts hold the same characters.
pub assume_specification[ <str as PartialEq>::eq ](a: &str, b: &str) -> (r: bool)
    ensures
        r == (a@ == b@),
;

/// `String::push` appends one character.
pub assume_specification[ String::push ](s: &mut String, c: char)
    ensures
        final(s)@ == old(s)@.push(c),
;

/// Whether two texts hold the same characters.
pub fn same_text(a: &str, b: &str) -> (r: bool)
    ensures
        r == (a@ == b@),
{
    a.eq(b)
}

/// An owned copy of a text.
pub fn owned(s: &str) -> (r: String)
    ensures
        r@ == s@,
{
    s.to_owned()
}

/// Whether a byte is an ASCII letter or digit.
pub open spec fn alphanumeric(b: u8) -> bool {
    (48 <= b <= 57) || (65 <= b <= 90) || (97 <= b <= 122)
}

/// Whether a byte stands for itself in a percent-encoded text: the ASCII
/// letters and digits, and `-`, `.`, `_` and `~`.
pub open spec fn unreserved(b: u8) -> bool {
    alphanumeric(b) || b == 45 || b == 46 || b == 95 || b == 126
}

/// The upper-case hexadecimal digit of a value below sixteen.
pub open spec fn hex_digit(d: int) -> char
    recommends
        0 <= d < 16,
{
    if d < 10 {
        (48 + d) as char
    } else {
        (55 + d) as char
    }
}

/// One byte, percent-encoded: itself where it is unreserved, and
/// otherwise `%` and its two hexadecimal digits.
pub open spec fn encoded_byte(b: u8) -> Seq<char> {
    if unreserved(b) {
        seq![b as char]
    } else {
        seq!['%', hex_digit(b as int / 16), hex_digit(b as int % 16)]
    }
}

/// A sequence of bytes, percent-encoded byte by byte.
pub open spec fn percent_encoded(bytes: Seq<u8>) -> Seq<char>
    decreases bytes.len(),
{
    if bytes.len() == 0 {
        Seq::empty()
    } else {
        percent_encoded(bytes.drop_last()) + encoded_byte(bytes.last())
    }
}

/// A text, percent-encoded: the bytes of its UTF-8 form, each encoded.
pub open spec fn url_encoded(s: Seq<char>) -> Seq<char> {
    percent_encoded(vstd::utf8::encode_utf8(s))
}

/// Calls `urlencoding::encode`, which percent-encodes every byte of the
/// text's UTF-8 form except the ASCII letters and digits and `-`, `.`,
/// `_` and `~`, with upper-case hexadecimal digits.
#[verifier::external_body]
fn urlencoding_encode(s: &str) -> (r: String)
    ensures
        r@ == url_encoded(s@),
{
    urlencoding::encode(s).into_owned()
}

/// A text made safe for a URL: percent-encoded.
pub fn url_encode(s: &str) -> (r: String)
    ensures
        r@ == url_encoded(s@),
{
    urlencoding_encode(s)
}

/// The character of a decimal digit.
pub open spec fn digit_char(d: nat) -> char
    recommends
        d < 10,
{
    (48 + d) as char
}

/// The decimal digits of a natural number, most significant first.
pub open spec fn digits(n: nat) -> Seq<char>
    decreases n,
{
    if n < 10 {
        seq![digit_char(n)]
    } else {
        digits(n / 10).push(digit_char(n % 10))
    }
}

/// The decimal text of an integer: its digits, after a minus sign where
/// it is negative.
pub open spec fn decimal_text(n: int) -> Seq<char> {
    if n < 0 {
        seq!['-'] + digits((-n) as nat)
    } else {
        digits(n as nat)
    }
}

/// The magnitude of an integer.
fn magnitude(n: i64) -> (m: u64)
    ensures
        m == if n < 0 {
            -(n as int)
        } else {
            n as int
        },
{
    if n < 0 {
        ((-(n + 1)) as u64) + 1
    } else {
        n as u64
    }
}

/// The decimal digits of a natural number, least significant first.
fn digits_reversed(n: u64) -> (r: Vec<char>)
    ensures
        r@.reverse() == digits(n as nat),
{
    let mut r: Vec<char> = Vec::new();
    let mut m: u64 = n;
    let mut done = false;
    assert(digits(m as nat) + r@.reverse() =~= digits(n as nat));
    while !done
        invariant
            !done ==> digits(m as nat) + r@.reverse() == digits(n as nat),
            done ==> r@.reverse() == digits(n as nat),
        decreases
                if done {
                    0
                } else {
                    m + 1
                },
    {
        let d = (m % 10) as u8;
        let c = (48u8 + d) as char;
        let ghost before = r@;
        r.push(c);
        assert(c == digit_char((m % 10) as nat));
        assert(r@.reverse() =~= seq![c] + before.reverse());
        if m < 10 {
            assert(digits(m as nat) =~= seq![c]);
            done = true;
        } else {
            assert(digits(m as nat) == digits((m / 10) as nat).push(c));
            assert(digits((m / 10) as nat) + r@.reverse() =~= digits(m as nat) + before.reverse());
            m = m / 10;
        }
    }
    r
}

/// The decimal text of an integer.
pub fn decimal(n: i64) -> (r: String)
    ensures
        r@ == decimal_text(n as int),
{
    let reversed = digits_reversed(magnitude(n));
    let mut r = String::new();
    if n < 0 {
        r.push('-');
    }
    let ghost sign = r@;
    let ghost all = reversed@.reverse();
    let mut i: usize = reversed.len();
    while i > 0
        invariant
            i <= reversed.len(),
            all == reversed@.reverse(),
            r@ == sign + all.subrange(0, reversed.len() - i),
        decreases i,
    {
        i -= 1;
        r.push(reversed[i]);
        assert(all[reversed.len() - 1 - i] == reversed@[i as int]);
        assert(r@ =~= sign + all.subrange(0, reversed.len() - i));
    }
    assert(all.subrange(0, reversed.len() as int) =~= all);
    assert(r@ =~= decimal_text(n as int));
    r
}

} // verus!
