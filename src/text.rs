//! Hexadecimal digit parsing and rendering of numbers as text.
use vstd::prelude::*;

verus! {

/// Value of one hexadecimal digit, either case.
pub open spec fn hex_value(c: char) -> Option<nat> {
    if '0' <= c && c <= '9' {
        Some((c as int - '0' as int) as nat)
    } else if 'a' <= c && c <= 'f' {
        Some((c as int - 'a' as int + 10) as nat)
    } else if 'A' <= c && c <= 'F' {
        Some((c as int - 'A' as int + 10) as nat)
    } else {
        None
    }
}

/// The byte spelled by the two hexadecimal digits at `i` and `i + 1`.
pub open spec fn hex_byte_at(s: Seq<char>, i: int) -> Option<nat> {
    if 0 <= i && i + 2 <= s.len() && hex_value(s[i]) is Some && hex_value(s[i + 1]) is Some {
        Some(hex_value(s[i])->0 * 16 + hex_value(s[i + 1])->0)
    } else {
        None
    }
}

/// The 16-bit value spelled by the four hexadecimal digits at `i`.
pub open spec fn hex_word_at(s: Seq<char>, i: int) -> Option<nat> {
    if hex_byte_at(s, i) is Some && hex_byte_at(s, i + 2) is Some {
        Some(hex_byte_at(s, i)->0 * 256 + hex_byte_at(s, i + 2)->0)
    } else {
        None
    }
}

/// The lower-case digit character of a digit value below sixteen.
pub open spec fn digit_char(d: nat) -> char {
    if d == 0 { '0' }
    else if d == 1 { '1' }
    else if d == 2 { '2' }
    else if d == 3 { '3' }
    else if d == 4 { '4' }
    else if d == 5 { '5' }
    else if d == 6 { '6' }
    else if d == 7 { '7' }
    else if d == 8 { '8' }
    else if d == 9 { '9' }
    else if d == 10 { 'a' }
    else if d == 11 { 'b' }
    else if d == 12 { 'c' }
    else if d == 13 { 'd' }
    else if d == 14 { 'e' }
    else { 'f' }
}

/// The digits of `n` in base `b`, most significant first, without leading zeros.
pub open spec fn digits(n: nat, b: nat) -> Seq<char>
    decreases n,
    via digits_decreases
{
    if b < 2 || n < b {
        seq![digit_char(n)]
    } else {
        digits(n / b, b).push(digit_char(n % b))
    }
}

#[via_fn]
proof fn digits_decreases(n: nat, b: nat) {
    if !(b < 2 || n < b) {
        assert(n / b < n) by (nonlinear_arith)
            requires
                n >= b,
                b >= 2,
        ;
    }
}

/// `n` in decimal.
pub open spec fn dec(n: nat) -> Seq<char> {
    digits(n, 10)
}

/// `n` in hexadecimal with the `0x` prefix, as `{:#x}` writes it.
pub open spec fn hex(n: nat) -> Seq<char> {
    seq!['0', 'x'] + digits(n, 16)
}

/// `v` in decimal with an explicit sign, as `{:+}` writes it.
pub open spec fn signed_dec(v: int) -> Seq<char> {
    if v >= 0 {
        seq!['+'] + dec(v as nat)
    } else {
        seq!['-'] + dec((-v) as nat)
    }
}

/// The lowest `count` binary digits of `n`, most significant first.
pub open spec fn bin_digits(n: nat, count: nat) -> Seq<char>
    decreases count,
{
    if count == 0 {
        seq![]
    } else {
        bin_digits(n / 2, (count - 1) as nat).push(digit_char(n % 2))
    }
}

/// A byte as `{:#010b}` writes it: `0b` and eight binary digits.
pub open spec fn bin_byte(n: u8) -> Seq<char> {
    seq!['0', 'b'] + bin_digits(n as nat, 8)
}

/// Reads one hexadecimal digit.
pub fn hex_digit(c: char) -> (r: Option<u8>)
    ensures
        r matches Some(v) ==> hex_value(c) == Some(v as nat),
        r is None ==> hex_value(c) is None,
{
    if '0' <= c && c <= '9' {
        Some((c as u32 - '0' as u32) as u8)
    } else if 'a' <= c && c <= 'f' {
        Some((c as u32 - 'a' as u32 + 10) as u8)
    } else if 'A' <= c && c <= 'F' {
        Some((c as u32 - 'A' as u32 + 10) as u8)
    } else {
        None
    }
}

/// Reads the byte spelled by two hexadecimal digits at character index `i` of `s`.
pub fn hex_byte(s: &str, i: usize) -> (r: Option<u8>)
    ensures
        r matches Some(v) ==> hex_byte_at(s@, i as int) == Some(v as nat),
        r is None ==> hex_byte_at(s@, i as int) is None,
{
    let len = s.unicode_len();
    if i > len || len - i < 2 {
        return None;
    }
    let hi = hex_digit(s.get_char(i));
    let lo = hex_digit(s.get_char(i + 1));
    match (hi, lo) {
        (Some(h), Some(l)) => Some(h * 16 + l),
        _ => None,
    }
}

/// Reads the 16-bit value spelled by four hexadecimal digits at character index `i` of `s`.
pub fn hex_word(s: &str, i: usize) -> (r: Option<u16>)
    ensures
        r matches Some(v) ==> hex_word_at(s@, i as int) == Some(v as nat),
        r is None ==> hex_word_at(s@, i as int) is None,
{
    let len = s.unicode_len();
    if i > len || len - i < 4 {
        return None;
    }
    match (hex_byte(s, i), hex_byte(s, i + 2)) {
        (Some(h), Some(l)) => Some(h as u16 * 256 + l as u16),
        _ => None,
    }
}

/// Appends the digit character of `d`.
pub fn push_digit(s: &mut String, d: u64)
    requires
        d < 16,
    ensures
        final(s)@ == old(s)@.push(digit_char(d as nat)),
{
    let t: &str = match d {
        0 => { proof { reveal_strlit("0"); } "0" },
        1 => { proof { reveal_strlit("1"); } "1" },
        2 => { proof { reveal_strlit("2"); } "2" },
        3 => { proof { reveal_strlit("3"); } "3" },
        4 => { proof { reveal_strlit("4"); } "4" },
        5 => { proof { reveal_strlit("5"); } "5" },
        6 => { proof { reveal_strlit("6"); } "6" },
        7 => { proof { reveal_strlit("7"); } "7" },
        8 => { proof { reveal_strlit("8"); } "8" },
        9 => { proof { reveal_strlit("9"); } "9" },
        10 => { proof { reveal_strlit("a"); } "a" },
        11 => { proof { reveal_strlit("b"); } "b" },
        12 => { proof { reveal_strlit("c"); } "c" },
        13 => { proof { reveal_strlit("d"); } "d" },
        14 => { proof { reveal_strlit("e"); } "e" },
        _ => { proof { reveal_strlit("f"); } "f" },
    };
    s.append(t);
    assert(final(s)@ =~= old(s)@.push(digit_char(d as nat)));
}

/// Appends the digits of `n` in base `b`.
pub fn push_digits(s: &mut String, n: u64, b: u64)
    requires
        2 <= b <= 16,
    ensures
        final(s)@ == old(s)@ + digits(n as nat, b as nat),
    decreases n,
{
    if n >= b {
        assert(n / b < n) by (nonlinear_arith)
            requires
                n >= b,
                b >= 2,
        ;
        push_digits(s, n / b, b);
        push_digit(s, n % b);
        assert(digits(n as nat, b as nat) == digits((n / b) as nat, b as nat).push(
            digit_char((n % b) as nat),
        ));
        assert(final(s)@ =~= old(s)@ + digits(n as nat, b as nat));
    } else {
        assert(n % b == n) by (nonlinear_arith)
            requires
                n < b,
        ;
        push_digit(s, n % b);
        assert(final(s)@ =~= old(s)@ + digits(n as nat, b as nat));
    }
}

/// Appends `n` in decimal.
pub fn push_dec(s: &mut String, n: u64)
    ensures
        final(s)@ == old(s)@ + dec(n as nat),
{
    push_digits(s, n, 10);
}

/// Appends `n` in hexadecimal with the `0x` prefix.
pub fn push_hex(s: &mut String, n: u64)
    ensures
        final(s)@ == old(s)@ + hex(n as nat),
{
    proof { reveal_strlit("0x"); }
    s.append("0x");
    push_digits(s, n, 16);
    assert(final(s)@ =~= old(s)@ + hex(n as nat));
}

/// Appends `v` in decimal with an explicit sign.
pub fn push_signed(s: &mut String, v: i64)
    ensures
        final(s)@ == old(s)@ + signed_dec(v as int),
{
    if v >= 0 {
        proof { reveal_strlit("+"); }
        s.append("+");
        push_digits(s, v as u64, 10);
    } else {
        proof { reveal_strlit("-"); }
        s.append("-");
        let m: u64 = if v == i64::MIN { 0x8000_0000_0000_0000u64 } else { (-v) as u64 };
        push_digits(s, m, 10);
    }
    assert(final(s)@ =~= old(s)@ + signed_dec(v as int));
}

/// Appends the lowest `count` binary digits of `n`.
pub fn push_bin_digits(s: &mut String, n: u64, count: u32)
    ensures
        final(s)@ == old(s)@ + bin_digits(n as nat, count as nat),
    decreases count,
{
    if count > 0 {
        push_bin_digits(s, n / 2, count - 1);
        push_digit(s, n % 2);
    }
    assert(final(s)@ =~= old(s)@ + bin_digits(n as nat, count as nat));
}

/// Appends a byte as `0b` and eight binary digits.
pub fn push_bin_byte(s: &mut String, n: u8)
    ensures
        final(s)@ == old(s)@ + bin_byte(n),
{
    proof { reveal_strlit("0b"); }
    s.append("0b");
    push_bin_digits(s, n as u64, 8);
    assert(final(s)@ =~= old(s)@ + bin_byte(n));
}

} // verus!
