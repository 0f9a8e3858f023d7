//! Verified text utilities used by attachment classification and message
//! ingestion: ASCII case folding, prefix/suffix tests on character sequences,
//! and decimal rendering of integers.

use vstd::prelude::*;
use vstd::string::StrSliceExecFns;
use vstd::string::StringExecFns;

verus! {

/// ASCII lower-casing of a single character; everything outside `'A'..='Z'`
/// is left unchanged.
pub open spec fn lower_char(c: char) -> char {
    match c {
        'A' => 'a',
        'B' => 'b',
        'C' => 'c',
        'D' => 'd',
        'E' => 'e',
        'F' => 'f',
        'G' => 'g',
        'H' => 'h',
        'I' => 'i',
        'J' => 'j',
        'K' => 'k',
        'L' => 'l',
        'M' => 'm',
        'N' => 'n',
        'O' => 'o',
        'P' => 'p',
        'Q' => 'q',
        'R' => 'r',
        'S' => 's',
        'T' => 't',
        'U' => 'u',
        'V' => 'v',
        'W' => 'w',
        'X' => 'x',
        'Y' => 'y',
        'Z' => 'z',
        _ => c,
    }
}

/// ASCII lower-casing of a character sequence.
pub open spec fn lower_seq(s: Seq<char>) -> Seq<char> {
    s.map_values(|c: char| lower_char(c))
}

/// `p` is a prefix of `s`.
pub open spec fn has_prefix(s: Seq<char>, p: Seq<char>) -> bool {
    p.len() <= s.len() && s.subrange(0, p.len() as int) == p
}

/// `p` is a suffix of `s`.
pub open spec fn has_suffix(s: Seq<char>, p: Seq<char>) -> bool {
    p.len() <= s.len() && s.subrange(s.len() - p.len(), s.len() as int) == p
}

fn to_lower_char(c: char) -> (r: char)
    ensures
        r == lower_char(c),
{
    match c {
        'A' => 'a',
        'B' => 'b',
        'C' => 'c',
        'D' => 'd',
        'E' => 'e',
        'F' => 'f',
        'G' => 'g',
        'H' => 'h',
        'I' => 'i',
        'J' => 'j',
        'K' => 'k',
        'L' => 'l',
        'M' => 'm',
        'N' => 'n',
        'O' => 'o',
        'P' => 'p',
        'Q' => 'q',
        'R' => 'r',
        'S' => 's',
        'T' => 't',
        'U' => 'u',
        'V' => 'v',
        'W' => 'w',
        'X' => 'x',
        'Y' => 'y',
        'Z' => 'z',
        _ => c,
    }
}

/// `s` starts with `p`, compared character by character.
pub fn str_has_prefix(s: &str, p: &str) -> (r: bool)
    ensures
        r == has_prefix(s@, p@),
{
    let sn = s.unicode_len();
    let pn = p.unicode_len();
    if pn > sn {
        return false;
    }
    let mut i: usize = 0;
    while i < pn
        invariant
            i <= pn <= sn,
            sn == s@.len(),
            pn == p@.len(),
            forall|j: int| 0 <= j < i ==> s@[j] == p@[j],
        decreases pn - i,
    {
        if s.get_char(i) != p.get_char(i) {
            assert(s@.subrange(0, pn as int)[i as int] != p@[i as int]);
            return false;
        }
        i += 1;
    }
    assert(s@.subrange(0, pn as int) =~= p@);
    true
}

/// The last `p.len()` characters of `s`, lower-cased ASCII-wise, equal `p`.
pub fn str_has_suffix_lower(s: &str, p: &str) -> (r: bool)
    ensures
        r == has_suffix(lower_seq(s@), p@),
{
    let sn = s.unicode_len();
    let pn = p.unicode_len();
    if pn > sn {
        return false;
    }
    let base = sn - pn;
    let mut i: usize = 0;
    while i < pn
        invariant
            i <= pn <= sn,
            base == sn - pn,
            sn == s@.len(),
            pn == p@.len(),
            forall|j: int| 0 <= j < i ==> lower_char(s@[base + j]) == p@[j],
        decreases pn - i,
    {
        if to_lower_char(s.get_char(base + i)) != p.get_char(i) {
            assert(lower_seq(s@).subrange(sn - pn, sn as int)[i as int] == lower_char(
                s@[base + i],
            ));
            return false;
        }
        i += 1;
    }
    assert(lower_seq(s@).subrange(sn - pn, sn as int) =~= p@);
    true
}

/// The character for a single decimal digit.
pub open spec fn dec_digit(d: int) -> char {
    if d == 0 {
        '0'
    } else if d == 1 {
        '1'
    } else if d == 2 {
        '2'
    } else if d == 3 {
        '3'
    } else if d == 4 {
        '4'
    } else if d == 5 {
        '5'
    } else if d == 6 {
        '6'
    } else if d == 7 {
        '7'
    } else if d == 8 {
        '8'
    } else {
        '9'
    }
}

/// Decimal representation of a non-negative integer, most significant digit
/// first, without leading zeros (`0` is rendered as `"0"`).
pub open spec fn dec_nat(n: nat) -> Seq<char>
    decreases n,
{
    if n < 10 {
        seq![dec_digit(n as int)]
    } else {
        dec_nat(n / 10) + seq![dec_digit((n % 10) as int)]
    }
}

/// Decimal representation of a signed integer: a `'-'` sign in front of the
/// magnitude when negative.
pub open spec fn dec_int(n: int) -> Seq<char> {
    if n >= 0 {
        dec_nat(n as nat)
    } else {
        seq!['-'] + dec_nat((-n) as nat)
    }
}

fn digit_str(d: u64) -> (r: String)
    requires
        d < 10,
    ensures
        r@ == seq![dec_digit(d as int)],
{
    let s: &str = match d {
        0 => "0",
        1 => "1",
        2 => "2",
        3 => "3",
        4 => "4",
        5 => "5",
        6 => "6",
        7 => "7",
        8 => "8",
        _ => "9",
    };
    proof {
        reveal_strlit("0");
        reveal_strlit("1");
        reveal_strlit("2");
        reveal_strlit("3");
        reveal_strlit("4");
        reveal_strlit("5");
        reveal_strlit("6");
        reveal_strlit("7");
        reveal_strlit("8");
        reveal_strlit("9");
        assert(s@ =~= seq![dec_digit(d as int)]);
    }
    s.to_owned()
}

/// Renders `n` in decimal.
pub fn u64_to_dec(n: u64) -> (r: String)
    ensures
        r@ == dec_nat(n as nat),
    decreases n,
{
    if n < 10 {
        digit_str(n)
    } else {
        let high = u64_to_dec(n / 10);
        let low = digit_str(n % 10);
        high.concat(low.as_str())
    }
}

/// Renders `n` in decimal, with a leading `'-'` when negative.
pub fn i64_to_dec(n: i64) -> (r: String)
    ensures
        r@ == dec_int(n as int),
{
    if n >= 0 {
        u64_to_dec(n as u64)
    } else {
        let wide: i128 = n as i128;
        let mag: u64 = (-wide) as u64;
        let digits = u64_to_dec(mag);
        let sign: &str = "-";
        proof {
            reveal_strlit("-");
            assert(sign@ =~= seq!['-']);
        }
        let r = sign.to_owned().concat(digits.as_str());
        proof {
            assert(r@ =~= seq!['-'] + dec_nat((-(n as int)) as nat));
        }
        r
    }
}

/// Zero-pads the decimal form of `d` to at least four digits, as a legacy
/// author-name discriminator is displayed.
pub open spec fn pad4(d: nat) -> Seq<char> {
    if d < 10 {
        seq!['0', '0', '0'] + dec_nat(d)
    } else if d < 100 {
        seq!['0', '0'] + dec_nat(d)
    } else if d < 1000 {
        seq!['0'] + dec_nat(d)
    } else {
        dec_nat(d)
    }
}

/// Renders `d` in decimal, zero-padded to at least four digits.
pub fn u16_pad4(d: u16) -> (r: String)
    ensures
        r@ == pad4(d as nat),
{
    let digits = u64_to_dec(d as u64);
    proof {
        reveal_strlit("000");
        reveal_strlit("00");
        reveal_strlit("0");
        assert("000"@ =~= seq!['0', '0', '0']);
        assert("00"@ =~= seq!['0', '0']);
        assert("0"@ =~= seq!['0']);
    }
    if d < 10 {
        "000".to_owned().concat(digits.as_str())
    } else if d < 100 {
        "00".to_owned().concat(digits.as_str())
    } else if d < 1000 {
        "0".to_owned().concat(digits.as_str())
    } else {
        digits
    }
}

} // verus!
