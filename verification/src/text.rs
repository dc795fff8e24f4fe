//! The character-level vocabulary of the assembly grammars: digit
//! alphabets for the decimal and hexadecimal forms, whitespace, and the
//! canonical renderings of numbers as digit runs.

use vstd::prelude::*;

verus! {

/// The numeric value of a decimal digit, or 10 for any other character.
pub open spec fn dec_val(c: char) -> nat {
    if c == '0' {
        0
    } else if c == '1' {
        1
    } else if c == '2' {
        2
    } else if c == '3' {
        3
    } else if c == '4' {
        4
    } else if c == '5' {
        5
    } else if c == '6' {
        6
    } else if c == '7' {
        7
    } else if c == '8' {
        8
    } else if c == '9' {
        9
    } else {
        10
    }
}

pub open spec fn is_dec_digit(c: char) -> bool {
    dec_val(c) < 10
}

/// The numeric value of a hexadecimal digit (either case), or 16 for
/// any other character.
pub open spec fn hex_val(c: char) -> nat {
    if dec_val(c) < 10 {
        dec_val(c)
    } else if c == 'a' || c == 'A' {
        10
    } else if c == 'b' || c == 'B' {
        11
    } else if c == 'c' || c == 'C' {
        12
    } else if c == 'd' || c == 'D' {
        13
    } else if c == 'e' || c == 'E' {
        14
    } else if c == 'f' || c == 'F' {
        15
    } else {
        16
    }
}

pub open spec fn is_hex_digit(c: char) -> bool {
    hex_val(c) < 16
}

/// Digit alphabet selection: the decimal and hexadecimal grammars share
/// one structure and differ only here.
pub open spec fn digit_ok(c: char, hex: bool) -> bool {
    if hex {
        is_hex_digit(c)
    } else {
        is_dec_digit(c)
    }
}

pub open spec fn digit_val(c: char, hex: bool) -> nat {
    if hex {
        hex_val(c)
    } else {
        dec_val(c)
    }
}

pub open spec fn radix(hex: bool) -> nat {
    if hex {
        16
    } else {
        10
    }
}

/// The decimal digit character for a value below 10.
pub open spec fn dec_char(d: nat) -> char {
    if d == 0 {
        '0'
    } else if d == 1 {
        '1'
    } else if d == 2 {
        '2'
    } else if d == 3 {
        '3'
    } else if d == 4 {
        '4'
    } else if d == 5 {
        '5'
    } else if d == 6 {
        '6'
    } else if d == 7 {
        '7'
    } else if d == 8 {
        '8'
    } else {
        '9'
    }
}

/// The hexadecimal digit character for a value below 16.
pub open spec fn hex_char(d: nat, upper: bool) -> char {
    if d < 10 {
        dec_char(d)
    } else if d == 10 {
        if upper {
            'A'
        } else {
            'a'
        }
    } else if d == 11 {
        if upper {
            'B'
        } else {
            'b'
        }
    } else if d == 12 {
        if upper {
            'C'
        } else {
            'c'
        }
    } else if d == 13 {
        if upper {
            'D'
        } else {
            'd'
        }
    } else if d == 14 {
        if upper {
            'E'
        } else {
            'e'
        }
    } else {
        if upper {
            'F'
        } else {
            'f'
        }
    }
}

/// The whitespace accepted between tokens and between instructions.
pub open spec fn is_space(c: char) -> bool {
    c == ' ' || c == '\t' || c == '\n' || c == '\r'
}

/// The canonical decimal rendering of `n`: no sign, no leading zeros.
pub open spec fn dec_digits(n: nat) -> Seq<char>
    decreases n,
{
    if n < 10 {
        seq![dec_char(n)]
    } else {
        dec_digits(n / 10) + seq![dec_char(n % 10)]
    }
}

/// The hexadecimal rendering of `n`, zero-padded to exactly `width`
/// digits; the low digits of `n` if it does not fit.
pub open spec fn hex_fixed(n: nat, width: nat, upper: bool) -> Seq<char>
    decreases width,
{
    if width == 0 {
        Seq::empty()
    } else {
        hex_fixed(n / 16, (width - 1) as nat, upper) + seq![hex_char(n % 16, upper)]
    }
}

/// Powers of sixteen: the number of values a fixed hex width can hold.
pub open spec fn pow16(w: nat) -> nat
    decreases w,
{
    if w == 0 {
        1
    } else {
        16 * pow16((w - 1) as nat)
    }
}

pub proof fn lemma_pow16_pos(w: nat)
    ensures
        pow16(w) >= 1,
    decreases w,
{
    if w > 0 {
        lemma_pow16_pos((w - 1) as nat);
    }
}

/// Reading back the decimal digit character gives the digit.
pub proof fn lemma_dec_char_val(d: nat)
    requires
        d < 10,
    ensures
        dec_val(dec_char(d)) == d,
        is_dec_digit(dec_char(d)),
{
}

/// Reading back the hexadecimal digit character gives the digit.
pub proof fn lemma_hex_char_val(d: nat, upper: bool)
    requires
        d < 16,
    ensures
        hex_val(hex_char(d, upper)) == d,
        is_hex_digit(hex_char(d, upper)),
{
    if d < 10 {
        lemma_dec_char_val(d);
    }
}

/// A canonical decimal rendering is a nonempty run of decimal digits.
pub proof fn lemma_dec_digits_wf(n: nat)
    ensures
        dec_digits(n).len() >= 1,
        forall|j: int| 0 <= j < dec_digits(n).len() ==> is_dec_digit(#[trigger] dec_digits(n)[j]),
    decreases n,
{
    if n < 10 {
        lemma_dec_char_val(n);
    } else {
        lemma_dec_digits_wf(n / 10);
        lemma_dec_char_val(n % 10);
    }
}

/// A fixed-width hex rendering is exactly `width` hex digits.
pub proof fn lemma_hex_fixed_wf(n: nat, width: nat, upper: bool)
    ensures
        hex_fixed(n, width, upper).len() == width,
        forall|j: int|
            0 <= j < width ==> is_hex_digit(#[trigger] hex_fixed(n, width, upper)[j]),
    decreases width,
{
    if width > 0 {
        lemma_hex_fixed_wf(n / 16, (width - 1) as nat, upper);
        lemma_hex_char_val(n % 16, upper);
    }
}

/// Appends the decimal digit `d` to `s`.
pub fn push_dec_digit(s: &mut String, d: u16)
    requires
        d < 10,
    ensures
        final(s)@ == old(s)@ + seq![dec_char(d as nat)],
{
    if d == 0 {
        proof { reveal_strlit("0"); }
        s.append("0");
    } else if d == 1 {
        proof { reveal_strlit("1"); }
        s.append("1");
    } else if d == 2 {
        proof { reveal_strlit("2"); }
        s.append("2");
    } else if d == 3 {
        proof { reveal_strlit("3"); }
        s.append("3");
    } else if d == 4 {
        proof { reveal_strlit("4"); }
        s.append("4");
    } else if d == 5 {
        proof { reveal_strlit("5"); }
        s.append("5");
    } else if d == 6 {
        proof { reveal_strlit("6"); }
        s.append("6");
    } else if d == 7 {
        proof { reveal_strlit("7"); }
        s.append("7");
    } else if d == 8 {
        proof { reveal_strlit("8"); }
        s.append("8");
    } else {
        proof { reveal_strlit("9"); }
        s.append("9");
    }
    proof {
        assert(s@ =~= old(s)@ + seq![dec_char(d as nat)]);
    }
}

/// Appends the hexadecimal digit `d` to `s`, in the requested case.
pub fn push_hex_digit(s: &mut String, d: u16, upper: bool)
    requires
        d < 16,
    ensures
        final(s)@ == old(s)@ + seq![hex_char(d as nat, upper)],
{
    if d < 10 {
        push_dec_digit(s, d);
    } else if d == 10 {
        if upper {
            proof { reveal_strlit("A"); }
            s.append("A");
        } else {
            proof { reveal_strlit("a"); }
            s.append("a");
        }
    } else if d == 11 {
        if upper {
            proof { reveal_strlit("B"); }
            s.append("B");
        } else {
            proof { reveal_strlit("b"); }
            s.append("b");
        }
    } else if d == 12 {
        if upper {
            proof { reveal_strlit("C"); }
            s.append("C");
        } else {
            proof { reveal_strlit("c"); }
            s.append("c");
        }
    } else if d == 13 {
        if upper {
            proof { reveal_strlit("D"); }
            s.append("D");
        } else {
            proof { reveal_strlit("d"); }
            s.append("d");
        }
    } else if d == 14 {
        if upper {
            proof { reveal_strlit("E"); }
            s.append("E");
        } else {
            proof { reveal_strlit("e"); }
            s.append("e");
        }
    } else {
        if upper {
            proof { reveal_strlit("F"); }
            s.append("F");
        } else {
            proof { reveal_strlit("f"); }
            s.append("f");
        }
    }
    proof {
        assert(s@ =~= old(s)@ + seq![hex_char(d as nat, upper)]);
    }
}

/// Appends the canonical decimal rendering of `n` to `s`.
pub fn push_dec(s: &mut String, n: u16)
    ensures
        final(s)@ == old(s)@ + dec_digits(n as nat),
    decreases n,
{
    if n < 10 {
        push_dec_digit(s, n);
    } else {
        push_dec(s, n / 10);
        push_dec_digit(s, n % 10);
        proof {
            assert(s@ =~= old(s)@ + dec_digits(n as nat));
        }
    }
}

/// Appends the hexadecimal rendering of `n`, zero-padded to `width`
/// digits, to `s`.
pub fn push_hex(s: &mut String, n: u16, width: u16, upper: bool)
    ensures
        final(s)@ == old(s)@ + hex_fixed(n as nat, width as nat, upper),
    decreases width,
{
    if width == 0 {
        proof {
            assert(s@ =~= old(s)@ + hex_fixed(n as nat, 0, upper));
        }
    } else {
        push_hex(s, n / 16, width - 1, upper);
        push_hex_digit(s, n % 16, upper);
        proof {
            assert(s@ =~= old(s)@ + hex_fixed(n as nat, width as nat, upper));
        }
    }
}

} // verus!
