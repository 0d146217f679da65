//! The opcode table: an ordered list of pattern descriptors, tried first to last.
use vstd::prelude::*;

verus! {

/// When an entry may match besides its template.
#[derive(Clone, Copy, Debug, PartialEq, Eq, Structural)]
pub enum Guard {
    /// Always.
    Always,
    /// Only with pseudo-instruction naming on.
    Overloads,
    /// Only with pseudo-instruction naming on, and fields `d` and `r` equal.
    OverloadsSameRegisters,
    /// Only with pseudo-instruction naming on, and field `k` all ones. The
    /// field is eight bits wide, so all ones is `0xFF`; a 16-bit all-ones
    /// value (`0xFFFF`) could never occur in it.
    OverloadsFullImmediate,
}

/// An indirect address register with its pre-decrement or post-increment.
#[derive(Clone, Copy, Debug, PartialEq, Eq, Structural)]
pub enum Pointer {
    X,
    XInc,
    XDec,
    Y,
    YInc,
    YDec,
    Z,
    ZInc,
    ZDec,
}

/// How one operand is rendered from the fields of the instruction.
#[derive(Clone, Copy, Debug, PartialEq, Eq, Structural)]
pub enum Operand {
    /// No operand.
    Absent,
    /// `r{v + offset}` for field value `v`.
    Register(char, u8),
    /// Both halves of a register pair: `r{2v + offset + 1}:r{2v + offset}`.
    RegisterPair(char, u8),
    /// The field in decimal.
    Decimal(char),
    /// The field in hexadecimal.
    Hexadecimal(char),
    /// An indirect address register.
    Memory(Pointer),
    /// An indirect address register plus the displacement field `q`.
    Displaced(Pointer),
    /// A relative branch: sign in field `e`, the other bits in field `k`, the
    /// given number of them taking part in the two's-complement reading.
    Relative(u8),
    /// An absolute jump target: field `k` above the extension word.
    Absolute,
    /// The extension word in hexadecimal.
    ExtensionHex,
    /// The extension word in decimal.
    ExtensionDecimal,
}

/// One entry of the table.
pub struct Pattern {
    pub template: &'static str,
    pub guard: Guard,
    pub mnemonic: &'static str,
    pub first: Operand,
    pub second: Operand,
    /// A skip instruction: the listing names both addresses it may go on at.
    pub skip: bool,
}

pub struct PatternView {
    pub template: Seq<char>,
    pub guard: Guard,
    pub mnemonic: Seq<char>,
    pub first: Operand,
    pub second: Operand,
    pub skip: bool,
}

impl View for Pattern {
    type V = PatternView;

    open spec fn view(&self) -> PatternView {
        PatternView {
            template: self.template@,
            guard: self.guard,
            mnemonic: self.mnemonic@,
            first: self.first,
            second: self.second,
            skip: self.skip,
        }
    }
}

/// The number of entries in the table.
pub const TABLE_LEN: usize = 132;

pub open spec fn entry(
    template: Seq<char>,
    guard: Guard,
    mnemonic: Seq<char>,
    first: Operand,
    second: Operand,
    skip: bool,
) -> PatternView {
    PatternView { template, guard, mnemonic, first, second, skip }
}

/// Entry `i` of the table. Where two entries share a template, the guarded one
/// comes first, so that it wins whenever its guard holds.
pub open spec fn table_entry(i: int) -> PatternView {
    if i < 12 {
        group_0(i)
    } else if i < 24 {
        group_1(i)
    } else if i < 36 {
        group_2(i)
    } else if i < 48 {
        group_3(i)
    } else if i < 60 {
        group_4(i)
    } else if i < 72 {
        group_5(i)
    } else if i < 84 {
        group_6(i)
    } else if i < 96 {
        group_7(i)
    } else if i < 108 {
        group_8(i)
    } else if i < 120 {
        group_9(i)
    } else {
        group_10(i)
    }
}

/// Entries 0 to 11 of the table.
pub open spec fn group_0(i: int) -> PatternView {
    if i == 0 {
        entry("0000_0000_0000_0000"@, Guard::Always, "nop"@, Operand::Absent, Operand::Absent, false)
    } else if i == 1 {
        entry("0000_0001_dddd_rrrr"@, Guard::Always, "movw"@, Operand::RegisterPair('d', 0), Operand::RegisterPair('r', 0), false)
    } else if i == 2 {
        entry("0000_0010_dddd_rrrr"@, Guard::Always, "muls"@, Operand::Register('d', 16), Operand::Register('r', 16), false)
    } else if i == 3 {
        entry("0000_0011_0ddd_0rrr"@, Guard::Always, "mulsu"@, Operand::Register('d', 16), Operand::Register('r', 16), false)
    } else if i == 4 {
        entry("0000_0011_0ddd_1rrr"@, Guard::Always, "fmul"@, Operand::Register('d', 16), Operand::Register('r', 16), false)
    } else if i == 5 {
        entry("0000_0011_1ddd_0rrr"@, Guard::Always, "fmuls"@, Operand::Register('d', 16), Operand::Register('r', 16), false)
    } else if i == 6 {
        entry("0000_0011_1ddd_1rrr"@, Guard::Always, "fmulsu"@, Operand::Register('d', 16), Operand::Register('r', 16), false)
    } else if i == 7 {
        entry("0000_01rd_dddd_rrrr"@, Guard::Always, "cpc"@, Operand::Register('d', 0), Operand::Register('r', 0), false)
    } else if i == 8 {
        entry("0000_10rd_dddd_rrrr"@, Guard::Always, "sbc"@, Operand::Register('d', 0), Operand::Register('r', 0), false)
    } else if i == 9 {
        entry("0000_11rd_dddd_rrrr"@, Guard::OverloadsSameRegisters, "lsl"@, Operand::Register('d', 0), Operand::Absent, false)
    } else if i == 10 {
        entry("0000_11rd_dddd_rrrr"@, Guard::Always, "add"@, Operand::Register('d', 0), Operand::Register('r', 0), false)
    } else {
        entry("0001_00rd_dddd_rrrr"@, Guard::Always, "cpse"@, Operand::Register('d', 0), Operand::Register('r', 0), true)
    }
}

/// Entries 12 to 23 of the table.
pub open spec fn group_1(i: int) -> PatternView {
    if i == 12 {
        entry("0001_01rd_dddd_rrrr"@, Guard::Always, "cp"@, Operand::Register('d', 0), Operand::Register('r', 0), false)
    } else if i == 13 {
        entry("0001_10rd_dddd_rrrr"@, Guard::Always, "sub"@, Operand::Register('d', 0), Operand::Register('r', 0), false)
    } else if i == 14 {
        entry("0001_11rd_dddd_rrrr"@, Guard::OverloadsSameRegisters, "rol"@, Operand::Register('d', 0), Operand::Absent, false)
    } else if i == 15 {
        entry("0001_11rd_dddd_rrrr"@, Guard::Always, "adc"@, Operand::Register('d', 0), Operand::Register('r', 0), false)
    } else if i == 16 {
        entry("0010_00rd_dddd_rrrr"@, Guard::OverloadsSameRegisters, "tst"@, Operand::Register('d', 0), Operand::Absent, false)
    } else if i == 17 {
        entry("0010_00rd_dddd_rrrr"@, Guard::Always, "and"@, Operand::Register('d', 0), Operand::Register('r', 0), false)
    } else if i == 18 {
        entry("0010_01rd_dddd_rrrr"@, Guard::OverloadsSameRegisters, "clr"@, Operand::Register('d', 0), Operand::Absent, false)
    } else if i == 19 {
        entry("0010_01rd_dddd_rrrr"@, Guard::Always, "eor"@, Operand::Register('d', 0), Operand::Register('r', 0), false)
    } else if i == 20 {
        entry("0010_10rd_dddd_rrrr"@, Guard::Always, "or"@, Operand::Register('d', 0), Operand::Register('r', 0), false)
    } else if i == 21 {
        entry("0010_11rd_dddd_rrrr"@, Guard::Always, "mov"@, Operand::Register('d', 0), Operand::Register('r', 0), false)
    } else if i == 22 {
        entry("0011_kkkk_dddd_kkkk"@, Guard::Always, "cpi"@, Operand::Register('d', 16), Operand::Decimal('k'), false)
    } else {
        entry("0100_kkkk_dddd_kkkk"@, Guard::Always, "sbci"@, Operand::Register('d', 16), Operand::Decimal('k'), false)
    }
}

/// Entries 24 to 35 of the table.
pub open spec fn group_2(i: int) -> PatternView {
    if i == 24 {
        entry("0101_kkkk_dddd_kkkk"@, Guard::Always, "subi"@, Operand::Register('d', 16), Operand::Hexadecimal('k'), false)
    } else if i == 25 {
        entry("0110_kkkk_dddd_kkkk"@, Guard::Always, "ori"@, Operand::Register('d', 16), Operand::Hexadecimal('k'), false)
    } else if i == 26 {
        entry("0111_kkkk_dddd_kkkk"@, Guard::Always, "andi"@, Operand::Register('d', 16), Operand::Hexadecimal('k'), false)
    } else if i == 27 {
        entry("1000_000d_dddd_0000"@, Guard::Always, "ld"@, Operand::Register('d', 0), Operand::Memory(Pointer::Z), false)
    } else if i == 28 {
        entry("1000_000d_dddd_1000"@, Guard::Always, "ld"@, Operand::Register('d', 0), Operand::Memory(Pointer::Y), false)
    } else if i == 29 {
        entry("1000_001r_rrrr_0000"@, Guard::Always, "st"@, Operand::Memory(Pointer::Z), Operand::Register('r', 0), false)
    } else if i == 30 {
        entry("1000_001r_rrrr_1000"@, Guard::Always, "st"@, Operand::Memory(Pointer::Y), Operand::Register('r', 0), false)
    } else if i == 31 {
        entry("1000_001r_rrrr_1001"@, Guard::Always, "st"@, Operand::Memory(Pointer::YInc), Operand::Register('r', 0), false)
    } else if i == 32 {
        entry("1000_001r_rrrr_1010"@, Guard::Always, "st"@, Operand::Memory(Pointer::YDec), Operand::Register('r', 0), false)
    } else if i == 33 {
        entry("1001_000d_dddd_0000"@, Guard::Always, "lds"@, Operand::Register('d', 0), Operand::ExtensionHex, false)
    } else if i == 34 {
        entry("1001_000d_dddd_0001"@, Guard::Always, "ld"@, Operand::Register('d', 0), Operand::Memory(Pointer::ZInc), false)
    } else {
        entry("1001_000d_dddd_0010"@, Guard::Always, "ld"@, Operand::Register('d', 0), Operand::Memory(Pointer::ZDec), false)
    }
}

/// Entries 36 to 47 of the table.
pub open spec fn group_3(i: int) -> PatternView {
    if i == 36 {
        entry("1001_000d_dddd_0100"@, Guard::Always, "lpm"@, Operand::Register('d', 0), Operand::Memory(Pointer::Z), false)
    } else if i == 37 {
        entry("1001_000d_dddd_0101"@, Guard::Always, "lpm"@, Operand::Register('d', 0), Operand::Memory(Pointer::ZInc), false)
    } else if i == 38 {
        entry("1001_000d_dddd_0110"@, Guard::Always, "elpm"@, Operand::Register('d', 0), Operand::Memory(Pointer::Z), false)
    } else if i == 39 {
        entry("1001_000d_dddd_0111"@, Guard::Always, "elpm"@, Operand::Register('d', 0), Operand::Memory(Pointer::ZInc), false)
    } else if i == 40 {
        entry("1001_000d_dddd_1001"@, Guard::Always, "ld"@, Operand::Register('d', 0), Operand::Memory(Pointer::YInc), false)
    } else if i == 41 {
        entry("1001_000d_dddd_1010"@, Guard::Always, "ld"@, Operand::Register('d', 0), Operand::Memory(Pointer::YDec), false)
    } else if i == 42 {
        entry("1001_000d_dddd_1100"@, Guard::Always, "ld"@, Operand::Register('d', 0), Operand::Memory(Pointer::X), false)
    } else if i == 43 {
        entry("1001_000d_dddd_1101"@, Guard::Always, "ld"@, Operand::Register('d', 0), Operand::Memory(Pointer::XInc), false)
    } else if i == 44 {
        entry("1001_000d_dddd_1110"@, Guard::Always, "ld"@, Operand::Register('d', 0), Operand::Memory(Pointer::XDec), false)
    } else if i == 45 {
        entry("1001_000d_dddd_1111"@, Guard::Always, "pop"@, Operand::Register('d', 0), Operand::Absent, false)
    } else if i == 46 {
        entry("1001_001d_dddd_0000"@, Guard::Always, "sts"@, Operand::ExtensionDecimal, Operand::Register('d', 0), false)
    } else {
        entry("1001_001r_rrrr_0001"@, Guard::Always, "st"@, Operand::Memory(Pointer::ZInc), Operand::Register('r', 0), false)
    }
}

/// Entries 48 to 59 of the table.
pub open spec fn group_4(i: int) -> PatternView {
    if i == 48 {
        entry("1001_001r_rrrr_0010"@, Guard::Always, "st"@, Operand::Memory(Pointer::ZDec), Operand::Register('r', 0), false)
    } else if i == 49 {
        entry("1001_001r_rrrr_1100"@, Guard::Always, "st"@, Operand::Memory(Pointer::X), Operand::Register('r', 0), false)
    } else if i == 50 {
        entry("1001_001r_rrrr_1101"@, Guard::Always, "st"@, Operand::Memory(Pointer::XInc), Operand::Register('r', 0), false)
    } else if i == 51 {
        entry("1001_001r_rrrr_1110"@, Guard::Always, "st"@, Operand::Memory(Pointer::XDec), Operand::Register('r', 0), false)
    } else if i == 52 {
        entry("1001_001d_dddd_1111"@, Guard::Always, "push"@, Operand::Register('d', 0), Operand::Absent, false)
    } else if i == 53 {
        entry("1001_0100_0000_1000"@, Guard::Overloads, "sec"@, Operand::Absent, Operand::Absent, false)
    } else if i == 54 {
        entry("1001_0100_0001_1000"@, Guard::Overloads, "sez"@, Operand::Absent, Operand::Absent, false)
    } else if i == 55 {
        entry("1001_0100_0010_1000"@, Guard::Overloads, "sen"@, Operand::Absent, Operand::Absent, false)
    } else if i == 56 {
        entry("1001_0100_0011_1000"@, Guard::Overloads, "sev"@, Operand::Absent, Operand::Absent, false)
    } else if i == 57 {
        entry("1001_0100_0100_1000"@, Guard::Overloads, "ses"@, Operand::Absent, Operand::Absent, false)
    } else if i == 58 {
        entry("1001_0100_0101_1000"@, Guard::Overloads, "seh"@, Operand::Absent, Operand::Absent, false)
    } else {
        entry("1001_0100_0110_1000"@, Guard::Overloads, "set"@, Operand::Absent, Operand::Absent, false)
    }
}

/// Entries 60 to 71 of the table.
pub open spec fn group_5(i: int) -> PatternView {
    if i == 60 {
        entry("1001_0100_0111_1000"@, Guard::Overloads, "sei"@, Operand::Absent, Operand::Absent, false)
    } else if i == 61 {
        entry("1001_0100_0000_1001"@, Guard::Always, "ijmp"@, Operand::Absent, Operand::Absent, false)
    } else if i == 62 {
        entry("1001_0100_0001_1001"@, Guard::Always, "eijmp"@, Operand::Absent, Operand::Absent, false)
    } else if i == 63 {
        entry("1001_0100_0sss_1000"@, Guard::Always, "bset"@, Operand::Decimal('s'), Operand::Absent, false)
    } else if i == 64 {
        entry("1001_0100_1000_1000"@, Guard::Overloads, "clc"@, Operand::Absent, Operand::Absent, false)
    } else if i == 65 {
        entry("1001_0100_1001_1000"@, Guard::Overloads, "clz"@, Operand::Absent, Operand::Absent, false)
    } else if i == 66 {
        entry("1001_0100_1010_1000"@, Guard::Overloads, "cln"@, Operand::Absent, Operand::Absent, false)
    } else if i == 67 {
        entry("1001_0100_1011_1000"@, Guard::Overloads, "clv"@, Operand::Absent, Operand::Absent, false)
    } else if i == 68 {
        entry("1001_0100_1100_1000"@, Guard::Overloads, "cls"@, Operand::Absent, Operand::Absent, false)
    } else if i == 69 {
        entry("1001_0100_1101_1000"@, Guard::Overloads, "clh"@, Operand::Absent, Operand::Absent, false)
    } else if i == 70 {
        entry("1001_0100_1110_1000"@, Guard::Overloads, "clt"@, Operand::Absent, Operand::Absent, false)
    } else {
        entry("1001_0100_1111_1000"@, Guard::Overloads, "cli"@, Operand::Absent, Operand::Absent, false)
    }
}

/// Entries 72 to 83 of the table.
pub open spec fn group_6(i: int) -> PatternView {
    if i == 72 {
        entry("1001_0100_1sss_1000"@, Guard::Always, "bclr"@, Operand::Decimal('s'), Operand::Absent, false)
    } else if i == 73 {
        entry("1001_0101_0000_1000"@, Guard::Always, "ret"@, Operand::Absent, Operand::Absent, false)
    } else if i == 74 {
        entry("1001_0101_0000_1001"@, Guard::Always, "icall"@, Operand::Absent, Operand::Absent, false)
    } else if i == 75 {
        entry("1001_0101_0001_1000"@, Guard::Always, "reti"@, Operand::Absent, Operand::Absent, false)
    } else if i == 76 {
        entry("1001_0101_0001_1001"@, Guard::Always, "eicall"@, Operand::Absent, Operand::Absent, false)
    } else if i == 77 {
        entry("1001_0101_1000_1000"@, Guard::Always, "sleep"@, Operand::Absent, Operand::Absent, false)
    } else if i == 78 {
        entry("1001_0101_1001_1000"@, Guard::Always, "break"@, Operand::Absent, Operand::Absent, false)
    } else if i == 79 {
        entry("1001_0101_1010_1000"@, Guard::Always, "wdr"@, Operand::Absent, Operand::Absent, false)
    } else if i == 80 {
        entry("1001_0101_1100_1000"@, Guard::Always, "lpm"@, Operand::Absent, Operand::Absent, false)
    } else if i == 81 {
        entry("1001_0101_1101_1000"@, Guard::Always, "elpm"@, Operand::Absent, Operand::Absent, false)
    } else if i == 82 {
        entry("1001_0101_1110_1000"@, Guard::Always, "spm"@, Operand::Absent, Operand::Absent, false)
    } else {
        entry("1001_010d_dddd_0000"@, Guard::Always, "com"@, Operand::Register('d', 0), Operand::Absent, false)
    }
}

/// Entries 84 to 95 of the table.
pub open spec fn group_7(i: int) -> PatternView {
    if i == 84 {
        entry("1001_010d_dddd_0001"@, Guard::Always, "neg"@, Operand::Register('d', 0), Operand::Absent, false)
    } else if i == 85 {
        entry("1001_010d_dddd_0010"@, Guard::Always, "swap"@, Operand::Register('d', 0), Operand::Absent, false)
    } else if i == 86 {
        entry("1001_010d_dddd_0011"@, Guard::Always, "inc"@, Operand::Register('d', 0), Operand::Absent, false)
    } else if i == 87 {
        entry("1001_010d_dddd_0101"@, Guard::Always, "asr"@, Operand::Register('d', 0), Operand::Absent, false)
    } else if i == 88 {
        entry("1001_010d_dddd_0110"@, Guard::Always, "lsr"@, Operand::Register('d', 0), Operand::Absent, false)
    } else if i == 89 {
        entry("1001_010d_dddd_0111"@, Guard::Always, "ror"@, Operand::Register('d', 0), Operand::Absent, false)
    } else if i == 90 {
        entry("1001_010d_dddd_1010"@, Guard::Always, "dec"@, Operand::Register('d', 0), Operand::Absent, false)
    } else if i == 91 {
        entry("1001_010k_kkkk_110k"@, Guard::Always, "jmp"@, Operand::Absolute, Operand::Absent, false)
    } else if i == 92 {
        entry("1001_010k_kkkk_111k"@, Guard::Always, "call"@, Operand::Absolute, Operand::Absent, false)
    } else if i == 93 {
        entry("1001_0110_kkdd_kkkk"@, Guard::Always, "adiw"@, Operand::RegisterPair('d', 24), Operand::Decimal('k'), false)
    } else if i == 94 {
        entry("1001_0111_kkdd_kkkk"@, Guard::Always, "sbiw"@, Operand::RegisterPair('d', 24), Operand::Decimal('k'), false)
    } else {
        entry("1001_1000_aaaa_abbb"@, Guard::Always, "cbi"@, Operand::Hexadecimal('a'), Operand::Decimal('b'), false)
    }
}

/// Entries 96 to 107 of the table.
pub open spec fn group_8(i: int) -> PatternView {
    if i == 96 {
        entry("1001_1001_aaaa_abbb"@, Guard::Always, "sbic"@, Operand::Hexadecimal('a'), Operand::Decimal('b'), true)
    } else if i == 97 {
        entry("1001_1010_aaaa_abbb"@, Guard::Always, "sbi"@, Operand::Hexadecimal('a'), Operand::Decimal('b'), false)
    } else if i == 98 {
        entry("1001_1011_aaaa_abbb"@, Guard::Always, "sbis"@, Operand::Hexadecimal('a'), Operand::Decimal('b'), true)
    } else if i == 99 {
        entry("1001_11rd_dddd_rrrr"@, Guard::Always, "mul"@, Operand::Register('d', 0), Operand::Register('r', 0), false)
    } else if i == 100 {
        entry("1011_0aad_dddd_aaaa"@, Guard::Always, "in"@, Operand::Register('d', 0), Operand::Hexadecimal('a'), false)
    } else if i == 101 {
        entry("1011_1aar_rrrr_aaaa"@, Guard::Always, "out"@, Operand::Hexadecimal('a'), Operand::Register('r', 0), false)
    } else if i == 102 {
        entry("10q0_qq1r_rrrr_0qqq"@, Guard::Always, "std"@, Operand::Displaced(Pointer::Z), Operand::Register('r', 0), false)
    } else if i == 103 {
        entry("10q0_qq1r_rrrr_1qqq"@, Guard::Always, "std"@, Operand::Displaced(Pointer::Y), Operand::Register('r', 0), false)
    } else if i == 104 {
        entry("10q0_qq0d_dddd_0qqq"@, Guard::Always, "ldd"@, Operand::Register('d', 0), Operand::Displaced(Pointer::Z), false)
    } else if i == 105 {
        entry("10q0_qq0d_dddd_1qqq"@, Guard::Always, "ldd"@, Operand::Register('d', 0), Operand::Displaced(Pointer::Y), false)
    } else if i == 106 {
        entry("1100_ekkk_kkkk_kkkk"@, Guard::Always, "rjmp"@, Operand::Relative(11), Operand::Absent, false)
    } else {
        entry("1101_ekkk_kkkk_kkkk"@, Guard::Always, "rcall"@, Operand::Relative(11), Operand::Absent, false)
    }
}

/// Entries 108 to 119 of the table.
pub open spec fn group_9(i: int) -> PatternView {
    if i == 108 {
        entry("1110_kkkk_dddd_kkkk"@, Guard::OverloadsFullImmediate, "ser"@, Operand::Register('d', 16), Operand::Absent, false)
    } else if i == 109 {
        entry("1110_kkkk_dddd_kkkk"@, Guard::Always, "ldi"@, Operand::Register('d', 16), Operand::Hexadecimal('k'), false)
    } else if i == 110 {
        entry("1111_00ek_kkkk_k000"@, Guard::Overloads, "brcs"@, Operand::Relative(6), Operand::Absent, false)
    } else if i == 111 {
        entry("1111_00ek_kkkk_k001"@, Guard::Overloads, "breq"@, Operand::Relative(6), Operand::Absent, false)
    } else if i == 112 {
        entry("1111_00ek_kkkk_k010"@, Guard::Overloads, "brmi"@, Operand::Relative(6), Operand::Absent, false)
    } else if i == 113 {
        entry("1111_00ek_kkkk_k011"@, Guard::Overloads, "brvs"@, Operand::Relative(6), Operand::Absent, false)
    } else if i == 114 {
        entry("1111_00ek_kkkk_k100"@, Guard::Overloads, "brlt"@, Operand::Relative(6), Operand::Absent, false)
    } else if i == 115 {
        entry("1111_00ek_kkkk_k101"@, Guard::Overloads, "brhs"@, Operand::Relative(6), Operand::Absent, false)
    } else if i == 116 {
        entry("1111_00ek_kkkk_k110"@, Guard::Overloads, "brts"@, Operand::Relative(6), Operand::Absent, false)
    } else if i == 117 {
        entry("1111_00ek_kkkk_k111"@, Guard::Overloads, "brie"@, Operand::Relative(6), Operand::Absent, false)
    } else if i == 118 {
        entry("1111_00ek_kkkk_ksss"@, Guard::Always, "brbs"@, Operand::Decimal('s'), Operand::Relative(3), false)
    } else {
        entry("1111_01ek_kkkk_k000"@, Guard::Overloads, "brcc"@, Operand::Relative(6), Operand::Absent, false)
    }
}

/// Entries 120 to 131 of the table.
pub open spec fn group_10(i: int) -> PatternView {
    if i == 120 {
        entry("1111_01ek_kkkk_k001"@, Guard::Overloads, "brne"@, Operand::Relative(6), Operand::Absent, false)
    } else if i == 121 {
        entry("1111_01ek_kkkk_k010"@, Guard::Overloads, "brpl"@, Operand::Relative(6), Operand::Absent, false)
    } else if i == 122 {
        entry("1111_01ek_kkkk_k011"@, Guard::Overloads, "brvc"@, Operand::Relative(6), Operand::Absent, false)
    } else if i == 123 {
        entry("1111_01ek_kkkk_k100"@, Guard::Overloads, "brge"@, Operand::Relative(6), Operand::Absent, false)
    } else if i == 124 {
        entry("1111_01ek_kkkk_k101"@, Guard::Overloads, "brhc"@, Operand::Relative(6), Operand::Absent, false)
    } else if i == 125 {
        entry("1111_01ek_kkkk_k110"@, Guard::Overloads, "brtc"@, Operand::Relative(6), Operand::Absent, false)
    } else if i == 126 {
        entry("1111_01ek_kkkk_k111"@, Guard::Overloads, "brid"@, Operand::Relative(6), Operand::Absent, false)
    } else if i == 127 {
        entry("1111_01ek_kkkk_ksss"@, Guard::Always, "brbc"@, Operand::Decimal('s'), Operand::Relative(3), false)
    } else if i == 128 {
        entry("1111_100d_dddd_0bbb"@, Guard::Always, "bld"@, Operand::Register('d', 0), Operand::Decimal('b'), false)
    } else if i == 129 {
        entry("1111_101d_dddd_0bbb"@, Guard::Always, "bst"@, Operand::Register('d', 0), Operand::Decimal('b'), false)
    } else if i == 130 {
        entry("1111_110r_rrrr_0bbb"@, Guard::Always, "sbrc"@, Operand::Register('r', 0), Operand::Decimal('b'), true)
    } else {
        entry("1111_111r_rrrr_0bbb"@, Guard::Always, "sbrs"@, Operand::Register('r', 0), Operand::Decimal('b'), true)
    }
}

fn pattern(
    template: &'static str,
    guard: Guard,
    mnemonic: &'static str,
    first: Operand,
    second: Operand,
    skip: bool,
) -> (r: Pattern)
    ensures
        r@ == entry(template@, guard, mnemonic@, first, second, skip),
{
    Pattern { template, guard, mnemonic, first, second, skip }
}

/// Entries 0 to 11 of the table.
fn group_0_at(i: usize) -> (r: Pattern)
    requires
        0 <= i < 12,
    ensures
        r@ == group_0(i as int),
{
    match i {
        0 => pattern("0000_0000_0000_0000", Guard::Always, "nop", Operand::Absent, Operand::Absent, false),
        1 => pattern("0000_0001_dddd_rrrr", Guard::Always, "movw", Operand::RegisterPair('d', 0), Operand::RegisterPair('r', 0), false),
        2 => pattern("0000_0010_dddd_rrrr", Guard::Always, "muls", Operand::Register('d', 16), Operand::Register('r', 16), false),
        3 => pattern("0000_0011_0ddd_0rrr", Guard::Always, "mulsu", Operand::Register('d', 16), Operand::Register('r', 16), false),
        4 => pattern("0000_0011_0ddd_1rrr", Guard::Always, "fmul", Operand::Register('d', 16), Operand::Register('r', 16), false),
        5 => pattern("0000_0011_1ddd_0rrr", Guard::Always, "fmuls", Operand::Register('d', 16), Operand::Register('r', 16), false),
        6 => pattern("0000_0011_1ddd_1rrr", Guard::Always, "fmulsu", Operand::Register('d', 16), Operand::Register('r', 16), false),
        7 => pattern("0000_01rd_dddd_rrrr", Guard::Always, "cpc", Operand::Register('d', 0), Operand::Register('r', 0), false),
        8 => pattern("0000_10rd_dddd_rrrr", Guard::Always, "sbc", Operand::Register('d', 0), Operand::Register('r', 0), false),
        9 => pattern("0000_11rd_dddd_rrrr", Guard::OverloadsSameRegisters, "lsl", Operand::Register('d', 0), Operand::Absent, false),
        10 => pattern("0000_11rd_dddd_rrrr", Guard::Always, "add", Operand::Register('d', 0), Operand::Register('r', 0), false),
        _ => pattern("0001_00rd_dddd_rrrr", Guard::Always, "cpse", Operand::Register('d', 0), Operand::Register('r', 0), true),
    }
}

/// Entries 12 to 23 of the table.
fn group_1_at(i: usize) -> (r: Pattern)
    requires
        12 <= i < 24,
    ensures
        r@ == group_1(i as int),
{
    match i {
        12 => pattern("0001_01rd_dddd_rrrr", Guard::Always, "cp", Operand::Register('d', 0), Operand::Register('r', 0), false),
        13 => pattern("0001_10rd_dddd_rrrr", Guard::Always, "sub", Operand::Register('d', 0), Operand::Register('r', 0), false),
        14 => pattern("0001_11rd_dddd_rrrr", Guard::OverloadsSameRegisters, "rol", Operand::Register('d', 0), Operand::Absent, false),
        15 => pattern("0001_11rd_dddd_rrrr", Guard::Always, "adc", Operand::Register('d', 0), Operand::Register('r', 0), false),
        16 => pattern("0010_00rd_dddd_rrrr", Guard::OverloadsSameRegisters, "tst", Operand::Register('d', 0), Operand::Absent, false),
        17 => pattern("0010_00rd_dddd_rrrr", Guard::Always, "and", Operand::Register('d', 0), Operand::Register('r', 0), false),
        18 => pattern("0010_01rd_dddd_rrrr", Guard::OverloadsSameRegisters, "clr", Operand::Register('d', 0), Operand::Absent, false),
        19 => pattern("0010_01rd_dddd_rrrr", Guard::Always, "eor", Operand::Register('d', 0), Operand::Register('r', 0), false),
        20 => pattern("0010_10rd_dddd_rrrr", Guard::Always, "or", Operand::Register('d', 0), Operand::Register('r', 0), false),
        21 => pattern("0010_11rd_dddd_rrrr", Guard::Always, "mov", Operand::Register('d', 0), Operand::Register('r', 0), false),
        22 => pattern("0011_kkkk_dddd_kkkk", Guard::Always, "cpi", Operand::Register('d', 16), Operand::Decimal('k'), false),
        _ => pattern("0100_kkkk_dddd_kkkk", Guard::Always, "sbci", Operand::Register('d', 16), Operand::Decimal('k'), false),
    }
}

/// Entries 24 to 35 of the table.
fn group_2_at(i: usize) -> (r: Pattern)
    requires
        24 <= i < 36,
    ensures
        r@ == group_2(i as int),
{
    match i {
        24 => pattern("0101_kkkk_dddd_kkkk", Guard::Always, "subi", Operand::Register('d', 16), Operand::Hexadecimal('k'), false),
        25 => pattern("0110_kkkk_dddd_kkkk", Guard::Always, "ori", Operand::Register('d', 16), Operand::Hexadecimal('k'), false),
        26 => pattern("0111_kkkk_dddd_kkkk", Guard::Always, "andi", Operand::Register('d', 16), Operand::Hexadecimal('k'), false),
        27 => pattern("1000_000d_dddd_0000", Guard::Always, "ld", Operand::Register('d', 0), Operand::Memory(Pointer::Z), false),
        28 => pattern("1000_000d_dddd_1000", Guard::Always, "ld", Operand::Register('d', 0), Operand::Memory(Pointer::Y), false),
        29 => pattern("1000_001r_rrrr_0000", Guard::Always, "st", Operand::Memory(Pointer::Z), Operand::Register('r', 0), false),
        30 => pattern("1000_001r_rrrr_1000", Guard::Always, "st", Operand::Memory(Pointer::Y), Operand::Register('r', 0), false),
        31 => pattern("1000_001r_rrrr_1001", Guard::Always, "st", Operand::Memory(Pointer::YInc), Operand::Register('r', 0), false),
        32 => pattern("1000_001r_rrrr_1010", Guard::Always, "st", Operand::Memory(Pointer::YDec), Operand::Register('r', 0), false),
        33 => pattern("1001_000d_dddd_0000", Guard::Always, "lds", Operand::Register('d', 0), Operand::ExtensionHex, false),
        34 => pattern("1001_000d_dddd_0001", Guard::Always, "ld", Operand::Register('d', 0), Operand::Memory(Pointer::ZInc), false),
        _ => pattern("1001_000d_dddd_0010", Guard::Always, "ld", Operand::Register('d', 0), Operand::Memory(Pointer::ZDec), false),
    }
}

/// Entries 36 to 47 of the table.
fn group_3_at(i: usize) -> (r: Pattern)
    requires
        36 <= i < 48,
    ensures
        r@ == group_3(i as int),
{
    match i {
        36 => pattern("1001_000d_dddd_0100", Guard::Always, "lpm", Operand::Register('d', 0), Operand::Memory(Pointer::Z), false),
        37 => pattern("1001_000d_dddd_0101", Guard::Always, "lpm", Operand::Register('d', 0), Operand::Memory(Pointer::ZInc), false),
        38 => pattern("1001_000d_dddd_0110", Guard::Always, "elpm", Operand::Register('d', 0), Operand::Memory(Pointer::Z), false),
        39 => pattern("1001_000d_dddd_0111", Guard::Always, "elpm", Operand::Register('d', 0), Operand::Memory(Pointer::ZInc), false),
        40 => pattern("1001_000d_dddd_1001", Guard::Always, "ld", Operand::Register('d', 0), Operand::Memory(Pointer::YInc), false),
        41 => pattern("1001_000d_dddd_1010", Guard::Always, "ld", Operand::Register('d', 0), Operand::Memory(Pointer::YDec), false),
        42 => pattern("1001_000d_dddd_1100", Guard::Always, "ld", Operand::Register('d', 0), Operand::Memory(Pointer::X), false),
        43 => pattern("1001_000d_dddd_1101", Guard::Always, "ld", Operand::Register('d', 0), Operand::Memory(Pointer::XInc), false),
        44 => pattern("1001_000d_dddd_1110", Guard::Always, "ld", Operand::Register('d', 0), Operand::Memory(Pointer::XDec), false),
        45 => pattern("1001_000d_dddd_1111", Guard::Always, "pop", Operand::Register('d', 0), Operand::Absent, false),
        46 => pattern("1001_001d_dddd_0000", Guard::Always, "sts", Operand::ExtensionDecimal, Operand::Register('d', 0), false),
        _ => pattern("1001_001r_rrrr_0001", Guard::Always, "st", Operand::Memory(Pointer::ZInc), Operand::Register('r', 0), false),
    }
}

/// Entries 48 to 59 of the table.
fn group_4_at(i: usize) -> (r: Pattern)
    requires
        48 <= i < 60,
    ensures
        r@ == group_4(i as int),
{
    match i {
        48 => pattern("1001_001r_rrrr_0010", Guard::Always, "st", Operand::Memory(Pointer::ZDec), Operand::Register('r', 0), false),
        49 => pattern("1001_001r_rrrr_1100", Guard::Always, "st", Operand::Memory(Pointer::X), Operand::Register('r', 0), false),
        50 => pattern("1001_001r_rrrr_1101", Guard::Always, "st", Operand::Memory(Pointer::XInc), Operand::Register('r', 0), false),
        51 => pattern("1001_001r_rrrr_1110", Guard::Always, "st", Operand::Memory(Pointer::XDec), Operand::Register('r', 0), false),
        52 => pattern("1001_001d_dddd_1111", Guard::Always, "push", Operand::Register('d', 0), Operand::Absent, false),
        53 => pattern("1001_0100_0000_1000", Guard::Overloads, "sec", Operand::Absent, Operand::Absent, false),
        54 => pattern("1001_0100_0001_1000", Guard::Overloads, "sez", Operand::Absent, Operand::Absent, false),
        55 => pattern("1001_0100_0010_1000", Guard::Overloads, "sen", Operand::Absent, Operand::Absent, false),
        56 => pattern("1001_0100_0011_1000", Guard::Overloads, "sev", Operand::Absent, Operand::Absent, false),
        57 => pattern("1001_0100_0100_1000", Guard::Overloads, "ses", Operand::Absent, Operand::Absent, false),
        58 => pattern("1001_0100_0101_1000", Guard::Overloads, "seh", Operand::Absent, Operand::Absent, false),
        _ => pattern("1001_0100_0110_1000", Guard::Overloads, "set", Operand::Absent, Operand::Absent, false),
    }
}

/// Entries 60 to 71 of the table.
fn group_5_at(i: usize) -> (r: Pattern)
    requires
        60 <= i < 72,
    ensures
        r@ == group_5(i as int),
{
    match i {
        60 => pattern("1001_0100_0111_1000", Guard::Overloads, "sei", Operand::Absent, Operand::Absent, false),
        61 => pattern("1001_0100_0000_1001", Guard::Always, "ijmp", Operand::Absent, Operand::Absent, false),
        62 => pattern("1001_0100_0001_1001", Guard::Always, "eijmp", Operand::Absent, Operand::Absent, false),
        63 => pattern("1001_0100_0sss_1000", Guard::Always, "bset", Operand::Decimal('s'), Operand::Absent, false),
        64 => pattern("1001_0100_1000_1000", Guard::Overloads, "clc", Operand::Absent, Operand::Absent, false),
        65 => pattern("1001_0100_1001_1000", Guard::Overloads, "clz", Operand::Absent, Operand::Absent, false),
        66 => pattern("1001_0100_1010_1000", Guard::Overloads, "cln", Operand::Absent, Operand::Absent, false),
        67 => pattern("1001_0100_1011_1000", Guard::Overloads, "clv", Operand::Absent, Operand::Absent, false),
        68 => pattern("1001_0100_1100_1000", Guard::Overloads, "cls", Operand::Absent, Operand::Absent, false),
        69 => pattern("1001_0100_1101_1000", Guard::Overloads, "clh", Operand::Absent, Operand::Absent, false),
        70 => pattern("1001_0100_1110_1000", Guard::Overloads, "clt", Operand::Absent, Operand::Absent, false),
        _ => pattern("1001_0100_1111_1000", Guard::Overloads, "cli", Operand::Absent, Operand::Absent, false),
    }
}

/// Entries 72 to 83 of the table.
fn group_6_at(i: usize) -> (r: Pattern)
    requires
        72 <= i < 84,
    ensures
        r@ == group_6(i as int),
{
    match i {
        72 => pattern("1001_0100_1sss_1000", Guard::Always, "bclr", Operand::Decimal('s'), Operand::Absent, false),
        73 => pattern("1001_0101_0000_1000", Guard::Always, "ret", Operand::Absent, Operand::Absent, false),
        74 => pattern("1001_0101_0000_1001", Guard::Always, "icall", Operand::Absent, Operand::Absent, false),
        75 => pattern("1001_0101_0001_1000", Guard::Always, "reti", Operand::Absent, Operand::Absent, false),
        76 => pattern("1001_0101_0001_1001", Guard::Always, "eicall", Operand::Absent, Operand::Absent, false),
        77 => pattern("1001_0101_1000_1000", Guard::Always, "sleep", Operand::Absent, Operand::Absent, false),
        78 => pattern("1001_0101_1001_1000", Guard::Always, "break", Operand::Absent, Operand::Absent, false),
        79 => pattern("1001_0101_1010_1000", Guard::Always, "wdr", Operand::Absent, Operand::Absent, false),
        80 => pattern("1001_0101_1100_1000", Guard::Always, "lpm", Operand::Absent, Operand::Absent, false),
        81 => pattern("1001_0101_1101_1000", Guard::Always, "elpm", Operand::Absent, Operand::Absent, false),
        82 => pattern("1001_0101_1110_1000", Guard::Always, "spm", Operand::Absent, Operand::Absent, false),
        _ => pattern("1001_010d_dddd_0000", Guard::Always, "com", Operand::Register('d', 0), Operand::Absent, false),
    }
}

/// Entries 84 to 95 of the table.
fn group_7_at(i: usize) -> (r: Pattern)
    requires
        84 <= i < 96,
    ensures
        r@ == group_7(i as int),
{
    match i {
        84 => pattern("1001_010d_dddd_0001", Guard::Always, "neg", Operand::Register('d', 0), Operand::Absent, false),
        85 => pattern("1001_010d_dddd_0010", Guard::Always, "swap", Operand::Register('d', 0), Operand::Absent, false),
        86 => pattern("1001_010d_dddd_0011", Guard::Always, "inc", Operand::Register('d', 0), Operand::Absent, false),
        87 => pattern("1001_010d_dddd_0101", Guard::Always, "asr", Operand::Register('d', 0), Operand::Absent, false),
        88 => pattern("1001_010d_dddd_0110", Guard::Always, "lsr", Operand::Register('d', 0), Operand::Absent, false),
        89 => pattern("1001_010d_dddd_0111", Guard::Always, "ror", Operand::Register('d', 0), Operand::Absent, false),
        90 => pattern("1001_010d_dddd_1010", Guard::Always, "dec", Operand::Register('d', 0), Operand::Absent, false),
        91 => pattern("1001_010k_kkkk_110k", Guard::Always, "jmp", Operand::Absolute, Operand::Absent, false),
        92 => pattern("1001_010k_kkkk_111k", Guard::Always, "call", Operand::Absolute, Operand::Absent, false),
        93 => pattern("1001_0110_kkdd_kkkk", Guard::Always, "adiw", Operand::RegisterPair('d', 24), Operand::Decimal('k'), false),
        94 => pattern("1001_0111_kkdd_kkkk", Guard::Always, "sbiw", Operand::RegisterPair('d', 24), Operand::Decimal('k'), false),
        _ => pattern("1001_1000_aaaa_abbb", Guard::Always, "cbi", Operand::Hexadecimal('a'), Operand::Decimal('b'), false),
    }
}

/// Entries 96 to 107 of the table.
fn group_8_at(i: usize) -> (r: Pattern)
    requires
        96 <= i < 108,
    ensures
        r@ == group_8(i as int),
{
    match i {
        96 => pattern("1001_1001_aaaa_abbb", Guard::Always, "sbic", Operand::Hexadecimal('a'), Operand::Decimal('b'), true),
        97 => pattern("1001_1010_aaaa_abbb", Guard::Always, "sbi", Operand::Hexadecimal('a'), Operand::Decimal('b'), false),
        98 => pattern("1001_1011_aaaa_abbb", Guard::Always, "sbis", Operand::Hexadecimal('a'), Operand::Decimal('b'), true),
        99 => pattern("1001_11rd_dddd_rrrr", Guard::Always, "mul", Operand::Register('d', 0), Operand::Register('r', 0), false),
        100 => pattern("1011_0aad_dddd_aaaa", Guard::Always, "in", Operand::Register('d', 0), Operand::Hexadecimal('a'), false),
        101 => pattern("1011_1aar_rrrr_aaaa", Guard::Always, "out", Operand::Hexadecimal('a'), Operand::Register('r', 0), false),
        102 => pattern("10q0_qq1r_rrrr_0qqq", Guard::Always, "std", Operand::Displaced(Pointer::Z), Operand::Register('r', 0), false),
        103 => pattern("10q0_qq1r_rrrr_1qqq", Guard::Always, "std", Operand::Displaced(Pointer::Y), Operand::Register('r', 0), false),
        104 => pattern("10q0_qq0d_dddd_0qqq", Guard::Always, "ldd", Operand::Register('d', 0), Operand::Displaced(Pointer::Z), false),
        105 => pattern("10q0_qq0d_dddd_1qqq", Guard::Always, "ldd", Operand::Register('d', 0), Operand::Displaced(Pointer::Y), false),
        106 => pattern("1100_ekkk_kkkk_kkkk", Guard::Always, "rjmp", Operand::Relative(11), Operand::Absent, false),
        _ => pattern("1101_ekkk_kkkk_kkkk", Guard::Always, "rcall", Operand::Relative(11), Operand::Absent, false),
    }
}

/// Entries 108 to 119 of the table.
fn group_9_at(i: usize) -> (r: Pattern)
    requires
        108 <= i < 120,
    ensures
        r@ == group_9(i as int),
{
    match i {
        108 => pattern("1110_kkkk_dddd_kkkk", Guard::OverloadsFullImmediate, "ser", Operand::Register('d', 16), Operand::Absent, false),
        109 => pattern("1110_kkkk_dddd_kkkk", Guard::Always, "ldi", Operand::Register('d', 16), Operand::Hexadecimal('k'), false),
        110 => pattern("1111_00ek_kkkk_k000", Guard::Overloads, "brcs", Operand::Relative(6), Operand::Absent, false),
        111 => pattern("1111_00ek_kkkk_k001", Guard::Overloads, "breq", Operand::Relative(6), Operand::Absent, false),
        112 => pattern("1111_00ek_kkkk_k010", Guard::Overloads, "brmi", Operand::Relative(6), Operand::Absent, false),
        113 => pattern("1111_00ek_kkkk_k011", Guard::Overloads, "brvs", Operand::Relative(6), Operand::Absent, false),
        114 => pattern("1111_00ek_kkkk_k100", Guard::Overloads, "brlt", Operand::Relative(6), Operand::Absent, false),
        115 => pattern("1111_00ek_kkkk_k101", Guard::Overloads, "brhs", Operand::Relative(6), Operand::Absent, false),
        116 => pattern("1111_00ek_kkkk_k110", Guard::Overloads, "brts", Operand::Relative(6), Operand::Absent, false),
        117 => pattern("1111_00ek_kkkk_k111", Guard::Overloads, "brie", Operand::Relative(6), Operand::Absent, false),
        118 => pattern("1111_00ek_kkkk_ksss", Guard::Always, "brbs", Operand::Decimal('s'), Operand::Relative(3), false),
        _ => pattern("1111_01ek_kkkk_k000", Guard::Overloads, "brcc", Operand::Relative(6), Operand::Absent, false),
    }
}

/// Entries 120 to 131 of the table.
fn group_10_at(i: usize) -> (r: Pattern)
    requires
        120 <= i < 132,
    ensures
        r@ == group_10(i as int),
{
    match i {
        120 => pattern("1111_01ek_kkkk_k001", Guard::Overloads, "brne", Operand::Relative(6), Operand::Absent, false),
        121 => pattern("1111_01ek_kkkk_k010", Guard::Overloads, "brpl", Operand::Relative(6), Operand::Absent, false),
        122 => pattern("1111_01ek_kkkk_k011", Guard::Overloads, "brvc", Operand::Relative(6), Operand::Absent, false),
        123 => pattern("1111_01ek_kkkk_k100", Guard::Overloads, "brge", Operand::Relative(6), Operand::Absent, false),
        124 => pattern("1111_01ek_kkkk_k101", Guard::Overloads, "brhc", Operand::Relative(6), Operand::Absent, false),
        125 => pattern("1111_01ek_kkkk_k110", Guard::Overloads, "brtc", Operand::Relative(6), Operand::Absent, false),
        126 => pattern("1111_01ek_kkkk_k111", Guard::Overloads, "brid", Operand::Relative(6), Operand::Absent, false),
        127 => pattern("1111_01ek_kkkk_ksss", Guard::Always, "brbc", Operand::Decimal('s'), Operand::Relative(3), false),
        128 => pattern("1111_100d_dddd_0bbb", Guard::Always, "bld", Operand::Register('d', 0), Operand::Decimal('b'), false),
        129 => pattern("1111_101d_dddd_0bbb", Guard::Always, "bst", Operand::Register('d', 0), Operand::Decimal('b'), false),
        130 => pattern("1111_110r_rrrr_0bbb", Guard::Always, "sbrc", Operand::Register('r', 0), Operand::Decimal('b'), true),
        _ => pattern("1111_111r_rrrr_0bbb", Guard::Always, "sbrs", Operand::Register('r', 0), Operand::Decimal('b'), true),
    }
}

/// Entry `i` of the table.
pub fn table_at(i: usize) -> (r: Pattern)
    requires
        i < TABLE_LEN,
    ensures
        r@ == table_entry(i as int),
{
    if i < 12 {
        group_0_at(i)
    } else if i < 24 {
        group_1_at(i)
    } else if i < 36 {
        group_2_at(i)
    } else if i < 48 {
        group_3_at(i)
    } else if i < 60 {
        group_4_at(i)
    } else if i < 72 {
        group_5_at(i)
    } else if i < 84 {
        group_6_at(i)
    } else if i < 96 {
        group_7_at(i)
    } else if i < 108 {
        group_8_at(i)
    } else if i < 120 {
        group_9_at(i)
    } else {
        group_10_at(i)
    }
}

} // verus!
