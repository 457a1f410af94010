//! Verified helpers for rendering numbers as text: decimal, signed decimal,
//! and fixed-width hexadecimal.

use vstd::prelude::*;
use vstd::string::StringExecFns;

verus! {

/// The character for one decimal digit.
pub open spec fn spec_digit(d: nat) -> char {
    if d == 0 {
        '0'
    } else if d == 1 {
        '1'
    } else if d == 2 {
        '2'
    } else if d == 3 {
        '3'
    } else if d == 4 {
        '4'
    } else if d == 5 {
        '5'
    } else if d == 6 {
        '6'
    } else if d == 7 {
        '7'
    } else if d == 8 {
        '8'
    } else {
        '9'
    }
}

/// The decimal digits of a number, most significant first, with no leading
/// zeros (zero itself renders as one digit).
pub open spec fn spec_dec(n: nat) -> Seq<char>
    decreases n,
{
    if n < 10 {
        seq![spec_digit(n)]
    } else {
        spec_dec(n / 10) + seq![spec_digit(n % 10)]
    }
}

/// The decimal rendering of a possibly negative number: a leading minus
/// sign, then the digits of its magnitude.
pub open spec fn spec_dec_signed(v: int) -> Seq<char> {
    if v < 0 {
        seq!['-'] + spec_dec((-v) as nat)
    } else {
        spec_dec(v as nat)
    }
}

/// The character for one hexadecimal digit.
pub open spec fn spec_hex_digit(d: nat) -> char {
    if d < 10 {
        spec_digit(d)
    } else if d == 10 {
        'a'
    } else if d == 11 {
        'b'
    } else if d == 12 {
        'c'
    } else if d == 13 {
        'd'
    } else if d == 14 {
        'e'
    } else {
        'f'
    }
}

/// The four-digit lowercase hexadecimal rendering of a word, leading zeros
/// kept.
pub open spec fn spec_hex4(n: u16) -> Seq<char> {
    seq![
        spec_hex_digit(((n >> 12) & 0xF) as nat),
        spec_hex_digit(((n >> 8) & 0xF) as nat),
        spec_hex_digit(((n >> 4) & 0xF) as nat),
        spec_hex_digit((n & 0xF) as nat),
    ]
}

/// One decimal digit as text.
fn digit_str(d: u16) -> (s: &'static str)
    requires
        d < 10,
    ensures
        s@ =~= seq![spec_digit(d as nat)],
{
    if d == 0 {
        let s = "0";
        proof {
            reveal_strlit("0");
        }
        s
    } else if d == 1 {
        let s = "1";
        proof {
            reveal_strlit("1");
        }
        s
    } else if d == 2 {
        let s = "2";
        proof {
            reveal_strlit("2");
        }
        s
    } else if d == 3 {
        let s = "3";
        proof {
            reveal_strlit("3");
        }
        s
    } else if d == 4 {
        let s = "4";
        proof {
            reveal_strlit("4");
        }
        s
    } else if d == 5 {
        let s = "5";
        proof {
            reveal_strlit("5");
        }
        s
    } else if d == 6 {
        let s = "6";
        proof {
            reveal_strlit("6");
        }
        s
    } else if d == 7 {
        let s = "7";
        proof {
            reveal_strlit("7");
        }
        s
    } else if d == 8 {
        let s = "8";
        proof {
            reveal_strlit("8");
        }
        s
    } else {
        let s = "9";
        proof {
            reveal_strlit("9");
        }
        s
    }
}

/// One hexadecimal digit as text.
fn hex_digit_str(d: u16) -> (s: &'static str)
    requires
        d < 16,
    ensures
        s@ =~= seq![spec_hex_digit(d as nat)],
{
    if d < 10 {
        digit_str(d)
    } else if d == 10 {
        let s = "a";
        proof {
            reveal_strlit("a");
        }
        s
    } else if d == 11 {
        let s = "b";
        proof {
            reveal_strlit("b");
        }
        s
    } else if d == 12 {
        let s = "c";
        proof {
            reveal_strlit("c");
        }
        s
    } else if d == 13 {
        let s = "d";
        proof {
            reveal_strlit("d");
        }
        s
    } else if d == 14 {
        let s = "e";
        proof {
            reveal_strlit("e");
        }
        s
    } else {
        let s = "f";
        proof {
            reveal_strlit("f");
        }
        s
    }
}

/// Renders a number in decimal, most significant digit first.
pub fn dec_u16(n: u16) -> (s: String)
    ensures
        s@ == spec_dec(n as nat),
    decreases n,
{
    if n < 10 {
        let s = String::from_str(digit_str(n));
        proof {
            assert(s@ =~= spec_dec(n as nat));
        }
        s
    } else {
        let mut s = dec_u16(n / 10);
        s.append(digit_str(n % 10));
        proof {
            assert(s@ =~= spec_dec(n as nat));
        }
        s
    }
}

/// Renders a signed displacement in decimal, with a leading minus sign for
/// negative values.
pub fn dec_i16(v: i16) -> (s: String)
    ensures
        s@ == spec_dec_signed(v as int),
{
    if v < 0 {
        let magnitude: u16 = #[verifier::truncate] ((-(v as i32)) as u16);
        let mut s = String::new();
        proof {
            reveal_strlit("-");
        }
        s.append("-");
        let digits = dec_u16(magnitude);
        s.append(digits.as_str());
        proof {
            assert(s@ =~= spec_dec_signed(v as int));
        }
        s
    } else {
        let magnitude: u16 = #[verifier::truncate] (v as u16);
        dec_u16(magnitude)
    }
}

/// Renders a word as four lowercase hexadecimal digits, leading zeros kept.
pub fn hex_u16(n: u16) -> (s: String)
    ensures
        s@ == spec_hex4(n),
{
    proof {
        lemma_nibbles(n);
    }
    let mut s = String::from_str(hex_digit_str((n >> 12) & 0xF));
    s.append(hex_digit_str((n >> 8) & 0xF));
    s.append(hex_digit_str((n >> 4) & 0xF));
    s.append(hex_digit_str(n & 0xF));
    proof {
        assert(s@ =~= spec_hex4(n));
    }
    s
}

/// A nibble sliced out of a word stays below sixteen.
proof fn lemma_nibbles(n: u16)
    by (bit_vector)
    ensures
        (n >> 12) & 0xF < 16,
        (n >> 8) & 0xF < 16,
        (n >> 4) & 0xF < 16,
        n & 0xF < 16,
{
}

} // verus!
