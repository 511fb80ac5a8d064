//! Small verified building blocks for text: character classes, hexadecimal
//! and decimal digit rendering, and conversions between `String` and
//! `Vec<char>`.

use vstd::prelude::*;

verus! {

/// True for the ASCII characters `0-9`, `A-Z` and `a-z`.
pub open spec fn is_ascii_alnum_char(c: char) -> bool {
    (48 <= c as u32 && c as u32 <= 57) || (65 <= c as u32 && c as u32 <= 90) || (97 <= c as u32
        && c as u32 <= 122)
}

/// Executable check for [`is_ascii_alnum_char`].
pub fn ascii_alnum_char(c: char) -> (r: bool)
    ensures
        r == is_ascii_alnum_char(c),
{
    let u: u32 = c as u32;
    (48 <= u && u <= 57) || (65 <= u && u <= 90) || (97 <= u && u <= 122)
}

/// The lowercase hexadecimal digit for a value below 16.
pub open spec fn hex_digit_char(n: u64) -> char {
    if n == 0 {
        '0'
    } else if n == 1 {
        '1'
    } else if n == 2 {
        '2'
    } else if n == 3 {
        '3'
    } else if n == 4 {
        '4'
    } else if n == 5 {
        '5'
    } else if n == 6 {
        '6'
    } else if n == 7 {
        '7'
    } else if n == 8 {
        '8'
    } else if n == 9 {
        '9'
    } else if n == 10 {
        'a'
    } else if n == 11 {
        'b'
    } else if n == 12 {
        'c'
    } else if n == 13 {
        'd'
    } else if n == 14 {
        'e'
    } else {
        'f'
    }
}

/// Executable lowercase hexadecimal digit for a value below 16.
pub fn hex_digit(n: u64) -> (c: char)
    requires
        n < 16,
    ensures
        c == hex_digit_char(n),
{
    if n == 0 {
        '0'
    } else if n == 1 {
        '1'
    } else if n == 2 {
        '2'
    } else if n == 3 {
        '3'
    } else if n == 4 {
        '4'
    } else if n == 5 {
        '5'
    } else if n == 6 {
        '6'
    } else if n == 7 {
        '7'
    } else if n == 8 {
        '8'
    } else if n == 9 {
        '9'
    } else if n == 10 {
        'a'
    } else if n == 11 {
        'b'
    } else if n == 12 {
        'c'
    } else if n == 13 {
        'd'
    } else if n == 14 {
        'e'
    } else {
        'f'
    }
}

/// Every hexadecimal digit is a lowercase hex character, hence alphanumeric.
pub proof fn lemma_hex_digit_char_class(n: u64)
    ensures
        (48 <= hex_digit_char(n) as u32 && hex_digit_char(n) as u32 <= 57) || (97 <= hex_digit_char(
            n,
        ) as u32 && hex_digit_char(n) as u32 <= 102),
        is_ascii_alnum_char(hex_digit_char(n)),
{
}

/// The decimal digit character for a value below 10.
pub open spec fn dec_digit_char(n: u128) -> char {
    hex_digit_char((n % 10) as u64)
}

/// The decimal rendering of `n`, most significant digit first, no leading
/// zeros (a single `'0'` for zero).
pub open spec fn dec_digits(n: u128) -> Seq<char>
    decreases n,
{
    if n < 10 {
        seq![dec_digit_char(n)]
    } else {
        dec_digits(n / 10) + seq![dec_digit_char(n % 10)]
    }
}

/// Appends the decimal rendering of `n` to `out`.
pub fn push_dec_digits(out: &mut Vec<char>, n: u128)
    ensures
        final(out)@ == old(out)@ + dec_digits(n),
    decreases n,
{
    if n < 10 {
        out.push(hex_digit((n % 10) as u64));
        assert(out@ =~= old(out)@ + dec_digits(n));
    } else {
        push_dec_digits(out, n / 10);
        out.push(hex_digit((n % 10) as u64));
        assert(out@ =~= old(out)@ + dec_digits(n));
    }
}

/// Decimal renderings are never empty, are one character exactly for values
/// below ten, and hold decimal digit characters only.
pub proof fn lemma_dec_digits_props(n: u128)
    ensures
        dec_digits(n).len() >= 1,
        (n < 10) <==> (dec_digits(n).len() == 1),
        forall|i: int|
            0 <= i < dec_digits(n).len() ==> ('0' <= #[trigger] dec_digits(n)[i] && dec_digits(n)[i]
                <= '9'),
    decreases n,
{
    if n >= 10 {
        lemma_dec_digits_props(n / 10);
        assert forall|i: int| 0 <= i < dec_digits(n).len() implies ('0' <= #[trigger] dec_digits(
            n,
        )[i] && dec_digits(n)[i] <= '9') by {
            if i < dec_digits(n / 10).len() {
                assert(dec_digits(n)[i] == dec_digits(n / 10)[i]);
            } else {
                assert(dec_digits(n)[i] == dec_digit_char(n % 10));
            }
        }
    }
}

/// Decimal rendering is injective: equal renderings come from equal values.
pub proof fn lemma_dec_digits_injective(m: u128, n: u128)
    requires
        dec_digits(m) == dec_digits(n),
    ensures
        m == n,
    decreases m,
{
    lemma_dec_digits_props(m);
    lemma_dec_digits_props(n);
    if m < 10 && n < 10 {
        assert(dec_digits(m)[0] == dec_digit_char(m));
        assert(dec_digits(n)[0] == dec_digit_char(n));
    } else if m >= 10 && n >= 10 {
        let lm = dec_digits(m).len();
        assert(dec_digits(m)[lm - 1] == dec_digit_char(m % 10));
        assert(dec_digits(n)[lm - 1] == dec_digit_char(n % 10));
        assert(m % 10 == n % 10);
        assert(dec_digits(m / 10) =~= dec_digits(m).drop_last());
        assert(dec_digits(n / 10) =~= dec_digits(n).drop_last());
        lemma_dec_digits_injective(m / 10, n / 10);
    }
}

/// The lowercase form of an ASCII letter; every other character unchanged.
pub open spec fn lower_char(c: char) -> char {
    if 'A' <= c && c <= 'Z' {
        ((c as u8) + 32) as char
    } else {
        c
    }
}

/// `s` with every ASCII uppercase letter lowercased.
pub open spec fn lower_ascii(s: Seq<char>) -> Seq<char> {
    s.map_values(|c: char| lower_char(c))
}

/// Lowercases the ASCII uppercase letters of a string.
pub fn ascii_lowercase(s: &str) -> (r: String)
    ensures
        r@ == lower_ascii(s@),
{
    let cs = str_to_chars(s);
    let mut out: Vec<char> = Vec::new();
    let mut i: usize = 0;
    while i < cs.len()
        invariant
            i <= cs@.len(),
            cs@ == s@,
            out@.len() == i,
            forall|j: int| 0 <= j < i ==> out@[j] == lower_char(cs@[j]),
        decreases cs@.len() - i,
    {
        let c = cs[i];
        if 'A' <= c && c <= 'Z' {
            out.push(((c as u8) + 32) as char);
        } else {
            out.push(c);
        }
        i = i + 1;
    }
    proof {
        assert(out@ =~= lower_ascii(s@));
    }
    chars_to_string(&out)
}

/// Appends the characters of `s` to `out`.
pub fn push_lit(out: &mut Vec<char>, s: &str)
    ensures
        final(out)@ == old(out)@ + s@,
{
    let mut cs = str_to_chars(s);
    out.append(&mut cs);
}

/// The 16-character lowercase hexadecimal rendering of a 64-bit value,
/// most significant digit first.
pub open spec fn hex16(d: u64) -> Seq<char> {
    Seq::new(16, |i: int| hex_digit_char((d >> ((15 - i) * 4) as u64) & 0xf))
}

/// Appends the fixed-width hexadecimal rendering of `d` to `out`.
pub fn push_hex16(out: &mut Vec<char>, d: u64)
    ensures
        final(out)@ == old(out)@ + hex16(d),
{
    let mut i: usize = 0;
    while i < 16
        invariant
            i <= 16,
            out@ == old(out)@ + hex16(d).take(i as int),
        decreases 16 - i,
    {
        let shift: u64 = ((15 - i) * 4) as u64;
        proof {
            assert((d >> shift) & 0xf < 16) by (bit_vector);
        }
        out.push(hex_digit((d >> shift) & 0xf));
        assert(out@ =~= old(out)@ + hex16(d).take(i + 1));
        i = i + 1;
    }
    assert(hex16(d).take(16) =~= hex16(d));
}

/// Relies on `String::from_iter` over `Vec<char>`: collecting characters
/// yields a string holding exactly those characters in order.
#[verifier::external_body]
pub fn chars_to_string(v: &Vec<char>) -> (s: String)
    ensures
        s@ == v@,
{
    v.iter().collect()
}

/// Relies on `str::chars`: iterating a string slice yields its characters in
/// order.
#[verifier::external_body]
pub fn str_to_chars(s: &str) -> (v: Vec<char>)
    ensures
        v@ == s@,
{
    s.chars().collect()
}

} // verus!
