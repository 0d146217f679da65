//! Bit-pattern templates: sixteen characters of `0`, `1` or a field letter,
//! grouped by `_`. The first non-`_` character stands for bit 15.
use vstd::prelude::*;
use vstd::arithmetic::power2::{lemma2_to64, lemma_pow2_strictly_increases, lemma_pow2_unfold, pow2};

verus! {

/// The number of bit characters (those other than `_`) in a template.
pub open spec fn width(t: Seq<char>) -> nat
    decreases t.len(),
{
    if t.len() == 0 {
        0
    } else if t.last() == '_' {
        width(t.drop_last())
    } else {
        width(t.drop_last()) + 1
    }
}

/// Bit `p` of `w`; false outside the word.
pub open spec fn bit(w: u16, p: int) -> bool {
    0 <= p < 16 && (w >> (p as u16)) & 1u16 == 1u16
}

/// The bit position that the last character of `t` stands for.
pub open spec fn last_position(t: Seq<char>) -> int {
    15 - width(t.drop_last())
}

/// Every `0` and `1` of the template agrees with the word.
pub open spec fn literals_agree(t: Seq<char>, w: u16) -> bool
    decreases t.len(),
{
    if t.len() == 0 {
        true
    } else {
        let c = t.last();
        let b = bit(w, last_position(t));
        literals_agree(t.drop_last(), w) && (c == '0' ==> !b) && (c == '1' ==> b)
    }
}

/// A word matches a template of sixteen bits whose literal bits it carries.
pub open spec fn template_matches(t: Seq<char>, w: u16) -> bool {
    width(t) == 16 && literals_agree(t, w)
}

/// The value of field `c`: the bits of `w` at the positions of `c` in the
/// template, concatenated from the most significant to the least.
pub open spec fn field(t: Seq<char>, c: char, w: u16) -> nat
    decreases t.len(),
{
    if t.len() == 0 {
        0
    } else if t.last() == c && c != '_' {
        2 * field(t.drop_last(), c, w) + (if bit(w, last_position(t)) { 1nat } else { 0nat })
    } else {
        field(t.drop_last(), c, w)
    }
}

proof fn lemma_field_bound(t: Seq<char>, c: char, w: u16)
    ensures
        field(t, c, w) < pow2(width(t)),
    decreases t.len(),
{
    if t.len() > 0 {
        lemma_field_bound(t.drop_last(), c, w);
        lemma_pow2_unfold(width(t.drop_last()) + 1);
    } else {
        lemma2_to64();
    }
}

proof fn lemma_width_prefix(t: Seq<char>, i: int)
    requires
        0 <= i <= t.len(),
    ensures
        width(t.subrange(0, i)) <= width(t),
    decreases t.len() - i,
{
    if i < t.len() {
        assert(t.subrange(0, i + 1).drop_last() =~= t.subrange(0, i));
        lemma_width_prefix(t, i + 1);
    } else {
        assert(t.subrange(0, i) =~= t);
    }
}

/// Reads bit `p` of `w`.
fn bit_at(w: u16, p: usize) -> (r: bool)
    requires
        p < 16,
    ensures
        r == bit(w, p as int),
{
    (w >> (p as u16)) & 1u16 == 1u16
}

/// Whether `w` matches template `t`.
pub fn template_match(t: &str, w: u16) -> (r: bool)
    ensures
        r == template_matches(t@, w),
{
    let n = t.unicode_len();
    let mut i: usize = 0;
    let mut pos: usize = 0;
    let mut ok = true;
    while i < n
        invariant
            i <= n,
            n == t@.len(),
            pos == width(t@.subrange(0, i as int)),
            pos <= i,
            ok == literals_agree(t@.subrange(0, i as int), w),
        decreases n - i,
    {
        let c = t.get_char(i);
        let ghost next = t@.subrange(0, i + 1);
        assert(next.drop_last() =~= t@.subrange(0, i as int));
        if c != '_' {
            let b = if pos < 16 { bit_at(w, 15 - pos) } else { false };
            if (c == '0' && b) || (c == '1' && !b) {
                ok = false;
            }
            pos = pos + 1;
        }
        i = i + 1;
    }
    assert(t@.subrange(0, n as int) =~= t@);
    ok && pos == 16
}

/// The value of field `c` of `w` under a matching template.
pub fn field_value(t: &str, c: char, w: u16) -> (r: u16)
    requires
        width(t@) == 16,
    ensures
        r as nat == field(t@, c, w),
{
    let n = t.unicode_len();
    let mut i: usize = 0;
    let mut pos: usize = 0;
    let mut v: u32 = 0;
    proof {
        lemma2_to64();
    }
    while i < n
        invariant
            i <= n,
            n == t@.len(),
            width(t@) == 16,
            pos == width(t@.subrange(0, i as int)),
            v as nat == field(t@.subrange(0, i as int), c, w),
            pow2(16) == 0x10000,
        decreases n - i,
    {
        let ch = t.get_char(i);
        let ghost next = t@.subrange(0, i + 1);
        assert(next.drop_last() =~= t@.subrange(0, i as int));
        proof {
            lemma_width_prefix(t@, i + 1);
            lemma_field_bound(t@.subrange(0, i as int), c, w);
            if pos < 16 {
                lemma_pow2_strictly_increases(pos as nat, 16);
            }
        }
        if ch != '_' {
            if ch == c {
                let b: u32 = if bit_at(w, 15 - pos) { 1 } else { 0 };
                v = 2 * v + b;
            }
            pos = pos + 1;
        }
        i = i + 1;
    }
    assert(t@.subrange(0, n as int) =~= t@);
    proof {
        lemma_field_bound(t@, c, w);
    }
    v as u16
}

/// Two's-complement reading of a field whose sign bit stands apart: a clear
/// sign gives `number`; a set sign gives `-((!number & mask) + 1)`.
pub open spec fn additional_code(sign: bool, number: u16, mask: u16) -> int {
    if sign {
        -((!number & mask) as int + 1)
    } else {
        number as int
    }
}

/// Decodes a signed field from its sign and its remaining bits, `mask` covering them.
pub fn from_additional_code(sign: bool, number: u16, mask: u16) -> (r: i32)
    ensures
        r as int == additional_code(sign, number, mask),
{
    if sign {
        -((!number & mask) as i32 + 1)
    } else {
        number as i32
    }
}

} // verus!
