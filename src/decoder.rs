//! Decoding instruction words against the opcode table, and rendering the
//! decoded instructions as listing lines.
use vstd::prelude::*;
use crate::assembler::{run_fits, RecordRun};
use crate::pattern::{additional_code, field, field_value, from_additional_code, template_match, template_matches, width};
use crate::table::{table_at, table_entry, Guard, Operand, Pattern, PatternView, Pointer, TABLE_LEN};
use crate::text::{dec, hex, push_dec, push_hex, push_signed, signed_dec};

verus! {

/// Why decoding a run stopped before its end.
#[derive(Clone, Copy, Debug, PartialEq, Eq, Structural)]
pub enum DecodeError {
    /// No entry of the table matches the word at `address`.
    UnknownOpcode { address: u32, word: u16 },
    /// The word at `address` needs an extension word, and the run ends after it.
    TruncatedInstruction { address: u32, word: u16 },
}

/// One decoded instruction.
pub struct DecodedInstruction {
    /// Byte address of its first word.
    pub address: u32,
    pub mnemonic: String,
    pub operands: Vec<String>,
    /// One, or two with an extension word.
    pub word_length: u8,
    /// The address a branch, call or jump goes to; for a skip instruction,
    /// the address after a skipped one-word instruction.
    pub target: Option<u64>,
    /// For a skip instruction, the address after a skipped two-word instruction.
    pub alternative: Option<u64>,
}

pub struct InstructionView {
    pub address: u32,
    pub mnemonic: Seq<char>,
    pub operands: Seq<Seq<char>>,
    pub word_length: u8,
    pub target: Option<u64>,
    pub alternative: Option<u64>,
}

impl View for DecodedInstruction {
    type V = InstructionView;

    open spec fn view(&self) -> InstructionView {
        InstructionView {
            address: self.address,
            mnemonic: self.mnemonic@,
            operands: self.operands@.map_values(|s: String| s@),
            word_length: self.word_length,
            target: self.target,
            alternative: self.alternative,
        }
    }
}

/// Whether the guard of entry `p` lets it match `w`.
pub open spec fn guard_holds(p: PatternView, w: u16, overloads: bool) -> bool {
    match p.guard {
        Guard::Always => true,
        Guard::Overloads => overloads,
        Guard::OverloadsSameRegisters => overloads && field(p.template, 'd', w) == field(
            p.template,
            'r',
            w,
        ),
        Guard::OverloadsFullImmediate => overloads && field(p.template, 'k', w) == 0xFF,
    }
}

/// Whether entry `p` matches word `w`.
pub open spec fn entry_matches(p: PatternView, w: u16, overloads: bool) -> bool {
    template_matches(p.template, w) && guard_holds(p, w, overloads)
}

/// The first entry at or after `i` that matches `w`.
pub open spec fn first_match_from(w: u16, overloads: bool, i: int) -> Option<int>
    decreases TABLE_LEN - i,
{
    if i < 0 || i >= TABLE_LEN {
        None
    } else if entry_matches(table_entry(i), w, overloads) {
        Some(i)
    } else {
        first_match_from(w, overloads, i + 1)
    }
}

/// The entry that decodes `w`: the first in the table that matches it.
pub open spec fn first_match(w: u16, overloads: bool) -> Option<int> {
    first_match_from(w, overloads, 0)
}

pub open spec fn uses_extension(op: Operand) -> bool {
    op is Absolute || op is ExtensionHex || op is ExtensionDecimal
}

/// An entry whose operands need the word after the opcode word.
pub open spec fn needs_extension(p: PatternView) -> bool {
    uses_extension(p.first) || uses_extension(p.second)
}

pub open spec fn pointer_text(p: Pointer) -> Seq<char> {
    match p {
        Pointer::X => "X"@,
        Pointer::XInc => "X+"@,
        Pointer::XDec => "-X"@,
        Pointer::Y => "Y"@,
        Pointer::YInc => "Y+"@,
        Pointer::YDec => "-Y"@,
        Pointer::Z => "Z"@,
        Pointer::ZInc => "Z+"@,
        Pointer::ZDec => "-Z"@,
    }
}

/// The mask of the low `bits` bits of a word.
pub open spec fn low_mask(bits: u8) -> u16 {
    if bits < 16 {
        ((1u16 << (bits as u16)) - 1u16) as u16
    } else {
        0xFFFF
    }
}

/// The displacement in words of a relative branch: the sign in field `e`, the
/// other bits in field `k`.
pub open spec fn displacement(t: Seq<char>, w: u16, bits: u8) -> int {
    additional_code(field(t, 'e', w) == 1, field(t, 'k', w) as u16, low_mask(bits))
}

/// The byte address a relative branch at `address` goes to, in the 16-bit
/// address space of the records.
pub open spec fn branch_target(address: int, disp: int) -> int {
    (address + 2 * (disp + 1)) % 0x10000
}

/// The byte address of an absolute jump or call: field `k` above the extension word.
pub open spec fn jump_target(t: Seq<char>, w: u16, ext: u16) -> int {
    field(t, 'k', w) * 0x20000 + ext as int * 2
}

/// The text of one operand.
pub open spec fn operand_text(op: Operand, t: Seq<char>, w: u16, ext: u16) -> Seq<char> {
    match op {
        Operand::Absent => seq![],
        Operand::Register(c, o) => "r"@ + dec((field(t, c, w) + o) as nat),
        Operand::RegisterPair(c, o) => "r"@ + dec((2 * field(t, c, w) + o + 1) as nat) + ":r"@
            + dec((2 * field(t, c, w) + o) as nat),
        Operand::Decimal(c) => dec(field(t, c, w)),
        Operand::Hexadecimal(c) => hex(field(t, c, w)),
        Operand::Memory(p) => pointer_text(p),
        Operand::Displaced(p) => pointer_text(p) + "+"@ + dec(field(t, 'q', w)),
        Operand::Relative(bits) => "."@ + signed_dec(2 * displacement(t, w, bits)),
        Operand::Absolute => hex(jump_target(t, w, ext) as nat),
        Operand::ExtensionHex => hex(ext as nat),
        Operand::ExtensionDecimal => dec(ext as nat),
    }
}

/// The rendered operands of entry `p` on `w`, in order.
pub open spec fn operands_of(p: PatternView, w: u16, ext: u16) -> Seq<Seq<char>> {
    if p.first is Absent {
        seq![]
    } else if p.second is Absent {
        seq![operand_text(p.first, p.template, w, ext)]
    } else {
        seq![operand_text(p.first, p.template, w, ext), operand_text(p.second, p.template, w, ext)]
    }
}

/// The target of one operand, if it names one.
pub open spec fn operand_target(op: Operand, t: Seq<char>, w: u16, ext: u16, address: int) -> Option<int> {
    match op {
        Operand::Relative(bits) => Some(branch_target(address, displacement(t, w, bits))),
        Operand::Absolute => Some(jump_target(t, w, ext)),
        _ => None,
    }
}

/// The target of entry `p` at `address`.
pub open spec fn target_of(p: PatternView, w: u16, ext: u16, address: int) -> Option<u64> {
    if operand_target(p.first, p.template, w, ext, address) is Some {
        Some(operand_target(p.first, p.template, w, ext, address)->0 as u64)
    } else if operand_target(p.second, p.template, w, ext, address) is Some {
        Some(operand_target(p.second, p.template, w, ext, address)->0 as u64)
    } else if p.skip {
        Some((address + 4) as u64)
    } else {
        None
    }
}

/// The instruction that entry `p` decodes `w` (and extension word `ext`) to.
pub open spec fn instruction_of(p: PatternView, w: u16, ext: u16, address: u32) -> InstructionView {
    InstructionView {
        address,
        mnemonic: p.mnemonic,
        operands: operands_of(p, w, ext),
        word_length: if needs_extension(p) { 2 } else { 1 },
        target: target_of(p, w, ext, address as int),
        alternative: if p.skip { Some((address + 6) as u64) } else { None },
    }
}

/// Byte address of word `pos` of a run.
pub open spec fn word_address(base: u16, pos: int) -> u32 {
    (base + 2 * pos) as u32
}

/// Decoding the word at `pos` of a run.
pub open spec fn decode_at(words: Seq<u16>, base: u16, pos: int, overloads: bool) -> Result<InstructionView, DecodeError> {
    let address = word_address(base, pos);
    let w = words[pos];
    match first_match(w, overloads) {
        None => Err(DecodeError::UnknownOpcode { address, word: w }),
        Some(i) => {
            let p = table_entry(i);
            if !needs_extension(p) {
                Ok(instruction_of(p, w, 0, address))
            } else if pos + 1 < words.len() {
                Ok(instruction_of(p, w, words[pos + 1], address))
            } else {
                Err(DecodeError::TruncatedInstruction { address, word: w })
            }
        },
    }
}

/// The instructions decoded from word `pos` of a run on, and the error that
/// stopped decoding, if one did.
pub open spec fn listing_from(words: Seq<u16>, base: u16, pos: int, overloads: bool) -> (Seq<InstructionView>, Option<DecodeError>)
    decreases words.len() - pos,
{
    if pos < 0 || pos >= words.len() {
        (seq![], None)
    } else {
        match decode_at(words, base, pos, overloads) {
            Err(e) => (seq![], Some(e)),
            Ok(ins) => {
                let rest = listing_from(words, base, pos + ins.word_length, overloads);
                (seq![ins] + rest.0, rest.1)
            },
        }
    }
}

fn guard_check(p: &Pattern, w: u16, overloads: bool) -> (r: bool)
    requires
        width(p.template@) == 16,
    ensures
        r == guard_holds(p@, w, overloads),
{
    match p.guard {
        Guard::Always => true,
        Guard::Overloads => overloads,
        Guard::OverloadsSameRegisters => overloads && field_value(p.template, 'd', w)
            == field_value(p.template, 'r', w),
        Guard::OverloadsFullImmediate => overloads && field_value(p.template, 'k', w) == 0xFF,
    }
}

/// The index of the first table entry that matches `w`.
pub fn find_pattern(w: u16, overloads: bool) -> (r: Option<usize>)
    ensures
        r matches Some(i) ==> first_match(w, overloads) == Some(i as int) && i < TABLE_LEN
            && template_matches(table_entry(i as int).template, w),
        r is None ==> first_match(w, overloads) is None,
{
    let mut i: usize = 0;
    while i < TABLE_LEN
        invariant
            i <= TABLE_LEN,
            first_match(w, overloads) == first_match_from(w, overloads, i as int),
        decreases TABLE_LEN - i,
    {
        let p = table_at(i);
        if template_match(p.template, w) && guard_check(&p, w, overloads) {
            return Some(i);
        }
        i = i + 1;
    }
    None
}

fn pointer_str(p: Pointer) -> (r: &'static str)
    ensures
        r@ == pointer_text(p),
{
    match p {
        Pointer::X => "X",
        Pointer::XInc => "X+",
        Pointer::XDec => "-X",
        Pointer::Y => "Y",
        Pointer::YInc => "Y+",
        Pointer::YDec => "-Y",
        Pointer::Z => "Z",
        Pointer::ZInc => "Z+",
        Pointer::ZDec => "-Z",
    }
}

fn mask_of(bits: u8) -> (r: u16)
    ensures
        r == low_mask(bits),
{
    if bits < 16 {
        let b: u16 = bits as u16;
        assert(1u16 << b >= 1u16) by (bit_vector)
            requires
                b < 16,
        ;
        (1u16 << b) - 1
    } else {
        0xFFFF
    }
}

fn relative_displacement(t: &str, w: u16, bits: u8) -> (r: i32)
    requires
        width(t@) == 16,
    ensures
        r as int == displacement(t@, w, bits),
        -0x10000 <= r < 0x10000,
{
    let e = field_value(t, 'e', w);
    let k = field_value(t, 'k', w);
    let mask = mask_of(bits);
    assert(!k & mask <= 0xFFFFu16) by (bit_vector);
    from_additional_code(e == 1, k, mask)
}

fn jump_target_of(t: &str, w: u16, ext: u16) -> (r: u64)
    requires
        width(t@) == 16,
    ensures
        r as int == jump_target(t@, w, ext),
{
    field_value(t, 'k', w) as u64 * 0x20000 + ext as u64 * 2
}

fn branch_target_of(address: u32, disp: i32) -> (r: u64)
    requires
        -0x10000 <= disp < 0x10000,
    ensures
        r as int == branch_target(address as int, disp as int),
{
    let x: i64 = address as i64 + 2 * (disp as i64 + 1) + 0x20000;
    assert((x as int) % 0x10000 == (address as int + 2 * (disp as int + 1)) % 0x10000);
    (x as u64) % 0x10000
}

fn operand_string(op: Operand, t: &str, w: u16, ext: u16) -> (r: String)
    requires
        width(t@) == 16,
    ensures
        r@ == operand_text(op, t@, w, ext),
{
    match op {
        Operand::Absent => String::new(),
        Operand::Register(c, o) => {
            let mut s = String::from_str("r");
            push_dec(&mut s, field_value(t, c, w) as u64 + o as u64);
            s
        },
        Operand::RegisterPair(c, o) => {
            let v = field_value(t, c, w) as u64;
            let mut s = String::from_str("r");
            push_dec(&mut s, 2 * v + o as u64 + 1);
            s.append(":r");
            push_dec(&mut s, 2 * v + o as u64);
            s
        },
        Operand::Decimal(c) => {
            let mut s = String::new();
            push_dec(&mut s, field_value(t, c, w) as u64);
            assert(s@ =~= operand_text(op, t@, w, ext));
            s
        },
        Operand::Hexadecimal(c) => {
            let mut s = String::new();
            push_hex(&mut s, field_value(t, c, w) as u64);
            assert(s@ =~= operand_text(op, t@, w, ext));
            s
        },
        Operand::Memory(p) => String::from_str(pointer_str(p)),
        Operand::Displaced(p) => {
            let mut s = String::from_str(pointer_str(p));
            s.append("+");
            push_dec(&mut s, field_value(t, 'q', w) as u64);
            s
        },
        Operand::Relative(bits) => {
            let d = relative_displacement(t, w, bits);
            let mut s = String::from_str(".");
            push_signed(&mut s, 2 * d as i64);
            s
        },
        Operand::Absolute => {
            let mut s = String::new();
            push_hex(&mut s, jump_target_of(t, w, ext));
            assert(s@ =~= operand_text(op, t@, w, ext));
            s
        },
        Operand::ExtensionHex => {
            let mut s = String::new();
            push_hex(&mut s, ext as u64);
            assert(s@ =~= operand_text(op, t@, w, ext));
            s
        },
        Operand::ExtensionDecimal => {
            let mut s = String::new();
            push_dec(&mut s, ext as u64);
            assert(s@ =~= operand_text(op, t@, w, ext));
            s
        },
    }
}

fn operand_target_of(op: Operand, t: &str, w: u16, ext: u16, address: u32) -> (r: Option<u64>)
    requires
        width(t@) == 16,
    ensures
        r is Some == operand_target(op, t@, w, ext, address as int) is Some,
        r matches Some(v) ==> v as int == operand_target(op, t@, w, ext, address as int)->0,
{
    match op {
        Operand::Relative(bits) => Some(branch_target_of(address, relative_displacement(t, w, bits))),
        Operand::Absolute => Some(jump_target_of(t, w, ext)),
        _ => None,
    }
}

fn needs_extension_exec(p: &Pattern) -> (r: bool)
    ensures
        r == needs_extension(p@),
{
    match (p.first, p.second) {
        (Operand::Absolute, _) | (Operand::ExtensionHex, _) | (Operand::ExtensionDecimal, _) => true,
        (_, Operand::Absolute) | (_, Operand::ExtensionHex) | (_, Operand::ExtensionDecimal) => true,
        _ => false,
    }
}

/// The instruction that entry `p` decodes `w` to at `address`.
fn build_instruction(p: &Pattern, w: u16, ext: u16, address: u32) -> (r: DecodedInstruction)
    requires
        width(p.template@) == 16,
    ensures
        r@ == instruction_of(p@, w, ext, address),
{
    let mut operands: Vec<String> = Vec::new();
    if !matches!(p.first, Operand::Absent) {
        operands.push(operand_string(p.first, p.template, w, ext));
        if !matches!(p.second, Operand::Absent) {
            operands.push(operand_string(p.second, p.template, w, ext));
        }
    }
    let target = match operand_target_of(p.first, p.template, w, ext, address) {
        Some(v) => Some(v),
        None => match operand_target_of(p.second, p.template, w, ext, address) {
            Some(v) => Some(v),
            None => if p.skip { Some(address as u64 + 4) } else { None },
        },
    };
    let r = DecodedInstruction {
        address,
        mnemonic: String::from_str(p.mnemonic),
        operands,
        word_length: if needs_extension_exec(p) { 2 } else { 1 },
        target,
        alternative: if p.skip { Some(address as u64 + 6) } else { None },
    };
    assert(r@.operands =~= operands_of(p@, w, ext));
    r
}

/// A read cursor over the words of one run.
pub struct WordStream<'a> {
    words: &'a Vec<u16>,
    base_address: u16,
    position: usize,
}

impl<'a> WordStream<'a> {
    pub closed spec fn words(&self) -> Seq<u16> {
        self.words@
    }

    pub closed spec fn base(&self) -> u16 {
        self.base_address
    }

    /// Index of the next word to be read.
    pub closed spec fn pos(&self) -> int {
        self.position as int
    }

    /// The stream's addresses fit the records' address space plus one record.
    pub open spec fn wf(&self) -> bool {
        self.base() + 2 * self.words().len() <= 0x10000 + 2 * crate::record::MAX_PAIRS
            && self.pos() <= self.words().len()
    }

    /// A stream at the first word of `run`.
    pub fn new(run: &'a RecordRun) -> (r: Self)
        requires
            run_fits(run@),
        ensures
            r.words() == run.words@,
            r.base() == run.base_address,
            r.pos() == 0,
            r.wf(),
    {
        WordStream { words: &run.words, base_address: run.base_address, position: 0 }
    }

    /// Whether every word has been read.
    pub fn is_exhausted(&self) -> (r: bool)
        requires
            self.wf(),
        ensures
            r == (self.pos() >= self.words().len()),
    {
        self.position >= self.words.len()
    }

    /// The next word, without consuming it.
    pub fn peek_next(&self) -> (r: Option<u16>)
        requires
            self.wf(),
        ensures
            self.pos() < self.words().len() ==> r == Some(self.words()[self.pos()]),
            self.pos() >= self.words().len() ==> r is None,
    {
        if self.position < self.words.len() {
            Some(self.words[self.position])
        } else {
            None
        }
    }

    /// Consumes and returns the next word; `None` at the end of the run.
    pub fn advance(&mut self) -> (r: Option<u16>)
        requires
            old(self).wf(),
        ensures
            final(self).wf(),
            final(self).words() == old(self).words(),
            final(self).base() == old(self).base(),
            old(self).pos() < old(self).words().len() ==> r == Some(old(self).words()[old(self).pos()])
                && final(self).pos() == old(self).pos() + 1,
            old(self).pos() >= old(self).words().len() ==> r is None && final(self).pos() == old(self).pos(),
    {
        if self.position < self.words.len() {
            let w = self.words[self.position];
            self.position = self.position + 1;
            Some(w)
        } else {
            None
        }
    }

    /// Byte address of the next word.
    pub fn address(&self) -> (r: u32)
        requires
            self.wf(),
        ensures
            r == word_address(self.base(), self.pos()),
    {
        self.base_address as u32 + 2 * self.position as u32
    }
}

/// Decodes the instruction at the stream's cursor and moves the cursor past
/// what it read: the opcode word, and the extension word where one is needed
/// and present.
pub fn decode_next(stream: &mut WordStream, overloads: bool) -> (r: Result<DecodedInstruction, DecodeError>)
    requires
        old(stream).wf(),
        old(stream).pos() < old(stream).words().len(),
    ensures
        final(stream).wf(),
        final(stream).words() == old(stream).words(),
        final(stream).base() == old(stream).base(),
        decode_at(old(stream).words(), old(stream).base(), old(stream).pos(), overloads) == (match r {
            Ok(ins) => Ok(ins@),
            Err(e) => Err(e),
        }),
        r matches Ok(ins) ==> final(stream).pos() == old(stream).pos() + ins.word_length,
        r is Err ==> final(stream).pos() == old(stream).pos() + 1,
{
    let address = stream.address();
    let w = match stream.advance() {
        Some(w) => w,
        None => 0,
    };
    match find_pattern(w, overloads) {
        None => Err(DecodeError::UnknownOpcode { address, word: w }),
        Some(i) => {
            let p = table_at(i);
            if !needs_extension_exec(&p) {
                Ok(build_instruction(&p, w, 0, address))
            } else {
                match stream.advance() {
                    Some(ext) => Ok(build_instruction(&p, w, ext, address)),
                    None => Err(DecodeError::TruncatedInstruction { address, word: w }),
                }
            }
        },
    }
}

/// The instructions of one run, and the error that stopped decoding, if any.
pub struct Disassembly {
    pub instructions: Vec<DecodedInstruction>,
    pub error: Option<DecodeError>,
}

pub open spec fn instructions_view(v: Seq<DecodedInstruction>) -> Seq<InstructionView> {
    v.map_values(|i: DecodedInstruction| i@)
}

/// Decodes a run from its first word until its end or the first error;
/// nothing after an error is decoded.
pub fn disassemble(run: &RecordRun, overloads: bool) -> (r: Disassembly)
    requires
        run_fits(run@),
    ensures
        (instructions_view(r.instructions@), r.error) == listing_from(
            run.words@,
            run.base_address,
            0,
            overloads,
        ),
{
    let ghost words = run.words@;
    let ghost base = run.base_address;
    let mut stream = WordStream::new(run);
    let mut instructions: Vec<DecodedInstruction> = Vec::new();
    while !stream.is_exhausted()
        invariant
            stream.wf(),
            words == run.words@,
            base == run.base_address,
            stream.words() == words,
            stream.base() == base,
            listing_from(words, base, 0, overloads) == (
                instructions_view(instructions@) + listing_from(words, base, stream.pos(), overloads).0,
                listing_from(words, base, stream.pos(), overloads).1,
            ),
        decreases words.len() - stream.pos(),
    {
        let ghost pos = stream.pos();
        let ghost before = instructions_view(instructions@);
        match decode_next(&mut stream, overloads) {
            Ok(ins) => {
                let ghost iv = ins@;
                instructions.push(ins);
                assert(instructions_view(instructions@) =~= before.push(iv));
                let ghost rest = listing_from(words, base, pos + iv.word_length, overloads);
                assert(listing_from(words, base, pos, overloads) == (seq![iv] + rest.0, rest.1));
                assert(before + (seq![iv] + rest.0) =~= before.push(iv) + rest.0);
            },
            Err(e) => {
                assert(listing_from(words, base, pos, overloads) == (Seq::<InstructionView>::empty(), Some(e)));
                assert(before + Seq::<InstructionView>::empty() =~= before);
                let r = Disassembly { instructions, error: Some(e) };
                assert(instructions_view(r.instructions@) == before);
                assert(listing_from(words, base, 0, overloads).0 == before);
                assert(listing_from(words, base, 0, overloads).1 == Some(e));
                assert(listing_from(words, base, 0, overloads) == (before, Some(e)));
                return r;
            },
        }
    }
    assert(instructions_view(instructions@) + Seq::<InstructionView>::empty() =~= instructions_view(instructions@));
    Disassembly { instructions, error: None }
}

/// The operands separated by commas.
pub open spec fn join_operands(ops: Seq<Seq<char>>) -> Seq<char>
    decreases ops.len(),
{
    if ops.len() == 0 {
        seq![]
    } else if ops.len() == 1 {
        ops[0]
    } else {
        join_operands(ops.drop_last()) + ", "@ + ops.last()
    }
}

/// The listing line of an instruction: its address, mnemonic and operands,
/// then its target, and for a skip instruction the second address, as a comment.
pub open spec fn line_text(i: InstructionView) -> Seq<char> {
    let head = hex(i.address as nat) + ": "@ + i.mnemonic;
    let body = if i.operands.len() == 0 { head } else { head + " "@ + join_operands(i.operands) };
    match i.target {
        None => body,
        Some(t) => match i.alternative {
            None => body + " ; "@ + hex(t as nat),
            Some(a) => body + " ; "@ + hex(t as nat) + " (or "@ + hex(a as nat) + ")"@,
        },
    }
}

/// Renders an instruction as its listing line.
pub fn render(ins: &DecodedInstruction) -> (r: String)
    ensures
        r@ == line_text(ins@),
{
    let mut s = String::new();
    push_hex(&mut s, ins.address as u64);
    s.append(": ");
    s.append(ins.mnemonic.as_str());
    let n = ins.operands.len();
    if n > 0 {
        s.append(" ");
        let ghost start = s@;
        let mut k: usize = 0;
        while k < n
            invariant
                k <= n,
                n == ins.operands@.len(),
                s@ == start + join_operands(ins@.operands.subrange(0, k as int)),
            decreases n - k,
        {
            if k > 0 {
                s.append(", ");
            }
            s.append(ins.operands[k].as_str());
            let ghost sub = ins@.operands.subrange(0, k + 1);
            assert(sub.drop_last() =~= ins@.operands.subrange(0, k as int));
            assert(s@ =~= start + join_operands(sub));
            k = k + 1;
        }
        assert(ins@.operands.subrange(0, n as int) =~= ins@.operands);
    }
    match ins.target {
        None => {},
        Some(t) => {
            s.append(" ; ");
            push_hex(&mut s, t);
            match ins.alternative {
                None => {},
                Some(a) => {
                    s.append(" (or ");
                    push_hex(&mut s, a);
                    s.append(")");
                },
            }
        },
    }
    assert(s@ =~= line_text(ins@));
    s
}

/// A word whose decoding entry needs an extension word (`lds`, `sts`, `jmp`,
/// `call`), standing last in a run, stops decoding with a truncation error, and
/// no instruction is produced for it.
pub proof fn lemma_truncated_at_end(words: Seq<u16>, base: u16, overloads: bool)
    requires
        words.len() >= 1,
        first_match(words.last(), overloads) is Some,
        needs_extension(table_entry(first_match(words.last(), overloads)->0)),
    ensures
        listing_from(words, base, words.len() - 1, overloads) == (
            Seq::<InstructionView>::empty(),
            Some(
                DecodeError::TruncatedInstruction {
                    address: word_address(base, words.len() - 1),
                    word: words.last(),
                },
            ),
        ),
{
}

/// A word that no entry matches stops decoding at once: nothing from it on is
/// decoded, and the error names its address and value.
pub proof fn lemma_unknown_stops(words: Seq<u16>, base: u16, pos: int, overloads: bool)
    requires
        0 <= pos < words.len(),
        first_match(words[pos], overloads) is None,
    ensures
        listing_from(words, base, pos, overloads) == (
            Seq::<InstructionView>::empty(),
            Some(DecodeError::UnknownOpcode { address: word_address(base, pos), word: words[pos] }),
        ),
{
}

/// A relative branch whose displacement bits are all ones under a set sign
/// goes to its own address.
pub proof fn lemma_all_ones_branch_is_self_loop(address: int, mask: u16)
    requires
        0 <= address < 0x10000,
    ensures
        additional_code(true, mask, mask) == -1,
        branch_target(address, additional_code(true, mask, mask)) == address,
{
    assert(!mask & mask == 0u16) by (bit_vector);
}

} // verus!
