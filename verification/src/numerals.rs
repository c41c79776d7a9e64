//! Decimal and uppercase-hexadecimal rendering of unsigned values.
//!
//! Key tokens for the engine's key-sequence parser spell a Unicode
//! code point as `"U"` followed by uppercase hexadecimal digits, and a
//! raw keycode as plain decimal digits.  The spec functions here give
//! those digit strings mathematically; the exec functions build them
//! and are proved to match.

use vstd::prelude::*;
use vstd::string::*;

verus! {

/// The digit character for a value below 16, uppercase for 10..15.
pub open spec fn digit_char(d: nat) -> char
    recommends
        d < 16,
{
    if d == 0 {
        '0'
    } else if d == 1 {
        '1'
    } else if d == 2 {
        '2'
    } else if d == 3 {
        '3'
    } else if d == 4 {
        '4'
    } else if d == 5 {
        '5'
    } else if d == 6 {
        '6'
    } else if d == 7 {
        '7'
    } else if d == 8 {
        '8'
    } else if d == 9 {
        '9'
    } else if d == 10 {
        'A'
    } else if d == 11 {
        'B'
    } else if d == 12 {
        'C'
    } else if d == 13 {
        'D'
    } else if d == 14 {
        'E'
    } else {
        'F'
    }
}

/// Uppercase hexadecimal digits of `n`, most significant first, no
/// leading zeros except for `n == 0` itself.
pub open spec fn hex_rep(n: nat) -> Seq<char>
    decreases n,
{
    if n < 16 {
        seq![digit_char(n)]
    } else {
        hex_rep(n / 16) + seq![digit_char(n % 16)]
    }
}

/// Decimal digits of `n`, most significant first, no leading zeros
/// except for `n == 0` itself.
pub open spec fn dec_rep(n: nat) -> Seq<char>
    decreases n,
{
    if n < 10 {
        seq![digit_char(n)]
    } else {
        dec_rep(n / 10) + seq![digit_char(n % 10)]
    }
}

/// Appends the single digit character for `d` to `s`.
fn push_digit(s: &mut String, d: u32)
    requires
        d < 16,
    ensures
        final(s)@ == old(s)@ + seq![digit_char(d as nat)],
{
    let t: &str = match d {
        0 => "0",
        1 => "1",
        2 => "2",
        3 => "3",
        4 => "4",
        5 => "5",
        6 => "6",
        7 => "7",
        8 => "8",
        9 => "9",
        10 => "A",
        11 => "B",
        12 => "C",
        13 => "D",
        14 => "E",
        _ => "F",
    };
    proof {
        reveal_strlit("0");
        reveal_strlit("1");
        reveal_strlit("2");
        reveal_strlit("3");
        reveal_strlit("4");
        reveal_strlit("5");
        reveal_strlit("6");
        reveal_strlit("7");
        reveal_strlit("8");
        reveal_strlit("9");
        reveal_strlit("A");
        reveal_strlit("B");
        reveal_strlit("C");
        reveal_strlit("D");
        reveal_strlit("E");
        reveal_strlit("F");
        assert(t@ =~= seq![digit_char(d as nat)]);
    }
    s.append(t);
    proof {
        assert(s@ =~= old(s)@ + seq![digit_char(d as nat)]);
    }
}

/// Uppercase hexadecimal string of `n`.
pub fn hex_string(n: u32) -> (s: String)
    ensures
        s@ == hex_rep(n as nat),
    decreases n,
{
    if n < 16 {
        let mut s = String::new();
        push_digit(&mut s, n);
        proof {
            assert(s@ =~= hex_rep(n as nat));
        }
        s
    } else {
        let mut s = hex_string(n / 16);
        push_digit(&mut s, n % 16);
        proof {
            assert(s@ =~= hex_rep(n as nat));
        }
        s
    }
}

/// Decimal string of `n`.
pub fn dec_string(n: u16) -> (s: String)
    ensures
        s@ == dec_rep(n as nat),
    decreases n,
{
    if n < 10 {
        let mut s = String::new();
        push_digit(&mut s, n as u32);
        proof {
            assert(s@ =~= dec_rep(n as nat));
        }
        s
    } else {
        let mut s = dec_string(n / 10);
        push_digit(&mut s, (n % 10) as u32);
        proof {
            assert(s@ =~= dec_rep(n as nat));
        }
        s
    }
}

/// Every digit character is a real glyph, never the null character.
pub proof fn lemma_digit_char_not_null(d: nat)
    ensures
        digit_char(d) != '\0',
{
}

/// A hexadecimal rendering is non-empty and free of null characters.
pub proof fn lemma_hex_rep_wf(n: nat)
    ensures
        hex_rep(n).len() >= 1,
        forall|i: int| 0 <= i < hex_rep(n).len() ==> hex_rep(n)[i] != '\0',
    decreases n,
{
    if n < 16 {
        lemma_digit_char_not_null(n);
    } else {
        lemma_hex_rep_wf(n / 16);
        lemma_digit_char_not_null(n % 16);
        assert forall|i: int| 0 <= i < hex_rep(n).len() implies hex_rep(n)[i] != '\0' by {
            let prefix = hex_rep(n / 16);
            if i < prefix.len() {
                assert(hex_rep(n)[i] == prefix[i]);
            } else {
                assert(hex_rep(n)[i] == digit_char(n % 16));
            }
        }
    }
}

/// A decimal rendering is non-empty and free of null characters.
pub proof fn lemma_dec_rep_wf(n: nat)
    ensures
        dec_rep(n).len() >= 1,
        forall|i: int| 0 <= i < dec_rep(n).len() ==> dec_rep(n)[i] != '\0',
    decreases n,
{
    if n < 10 {
        lemma_digit_char_not_null(n);
    } else {
        lemma_dec_rep_wf(n / 10);
        lemma_digit_char_not_null(n % 10);
        assert forall|i: int| 0 <= i < dec_rep(n).len() implies dec_rep(n)[i] != '\0' by {
            let prefix = dec_rep(n / 10);
            if i < prefix.len() {
                assert(dec_rep(n)[i] == prefix[i]);
            } else {
                assert(dec_rep(n)[i] == digit_char(n % 10));
            }
        }
    }
}

} // verus!
