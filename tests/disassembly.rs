use avr_disasm::assembler::{assemble, RecordRun};
use avr_disasm::decoder::{decode_next, disassemble, render, DecodeError, WordStream};
use avr_disasm::pattern::from_additional_code;
use avr_disasm::record::{Record, RecordFormatError, RecordType};

fn run_at(base_address: u16, words: Vec<u16>) -> RecordRun {
    RecordRun { base_address, record_type: RecordType::Data, words }
}

fn lines(base_address: u16, words: Vec<u16>, overloads: bool) -> Vec<String> {
    let run = run_at(base_address, words);
    let d = disassemble(&run, overloads);
    assert_eq!(d.error, None);
    d.instructions.iter().map(render).collect()
}

fn parse(line: &str) -> Result<Record, RecordFormatError> {
    Record::from_str(&line.to_string())
}

#[test]
fn nop_has_no_operands() {
    let run = run_at(0, vec![0x0000]);
    let d = disassemble(&run, true);
    assert_eq!(d.error, None);
    assert_eq!(d.instructions.len(), 1);
    assert_eq!(d.instructions[0].mnemonic, "nop");
    assert!(d.instructions[0].operands.is_empty());
    assert_eq!(d.instructions[0].word_length, 1);
    assert_eq!(render(&d.instructions[0]), "0x0: nop");
}

#[test]
fn add_fields_follow_the_word_layout() {
    assert_eq!(lines(0, vec![0x0C01], false), vec!["0x0: add r0, r1"]);
    assert_eq!(lines(0, vec![0x0C01], true), vec!["0x0: add r0, r1"]);
    assert_eq!(lines(0, vec![0x0C10], false), vec!["0x0: add r1, r0"]);
}

#[test]
fn add_with_equal_registers_is_lsl_when_overloads_on() {
    assert_eq!(lines(0, vec![0x0C00], true), vec!["0x0: lsl r0"]);
    assert_eq!(lines(0, vec![0x0C00], false), vec!["0x0: add r0, r0"]);
    assert_eq!(lines(0, vec![0x0FFF], true), vec!["0x0: lsl r31"]);
}

#[test]
fn other_register_pseudo_instructions() {
    assert_eq!(lines(0, vec![0x1C00], true), vec!["0x0: rol r0"]);
    assert_eq!(lines(0, vec![0x1C00], false), vec!["0x0: adc r0, r0"]);
    assert_eq!(lines(0, vec![0x2011], true), vec!["0x0: tst r1"]);
    assert_eq!(lines(0, vec![0x2011], false), vec!["0x0: and r1, r1"]);
    assert_eq!(lines(0, vec![0x2422], true), vec!["0x0: clr r2"]);
    assert_eq!(lines(0, vec![0x2422], false), vec!["0x0: eor r2, r2"]);
}

#[test]
fn ldi_with_all_ones_is_ser() {
    assert_eq!(lines(0, vec![0xEFFF], true), vec!["0x0: ser r31"]);
    assert_eq!(lines(0, vec![0xEFFF], false), vec!["0x0: ldi r31, 0xff"]);
    assert_eq!(lines(0, vec![0xE05A], true), vec!["0x0: ldi r21, 0xa"]);
}

#[test]
fn status_flag_names() {
    assert_eq!(lines(0, vec![0x9408], true), vec!["0x0: sec"]);
    assert_eq!(lines(0, vec![0x9408], false), vec!["0x0: bset 0"]);
    assert_eq!(lines(0, vec![0x9478], true), vec!["0x0: sei"]);
    assert_eq!(lines(0, vec![0x94F8], true), vec!["0x0: cli"]);
    assert_eq!(lines(0, vec![0x94F8], false), vec!["0x0: bclr 7"]);
}

#[test]
fn rjmp_all_ones_is_a_self_loop() {
    assert_eq!(lines(0, vec![0xCFFF], true), vec!["0x0: rjmp .-2 ; 0x0"]);
    let run = run_at(0x100, vec![0x0000, 0xCFFF]);
    let d = disassemble(&run, true);
    assert_eq!(d.instructions[1].address, 0x102);
    assert_eq!(d.instructions[1].target, Some(0x102));
}

#[test]
fn relative_branches() {
    assert_eq!(lines(0, vec![0xC002], true), vec!["0x0: rjmp .+4 ; 0x6"]);
    assert_eq!(lines(0, vec![0xD002], true), vec!["0x0: rcall .+4 ; 0x6"]);
    assert_eq!(lines(0, vec![0xCFFE], true), vec!["0x0: rjmp .-4 ; 0xfffe"]);
    assert_eq!(lines(0, vec![0xF3F9], true), vec!["0x0: breq .-2 ; 0x0"]);
    assert_eq!(lines(0, vec![0xF011], true), vec!["0x0: breq .+4 ; 0x6"]);
    assert_eq!(lines(0, vec![0xF411], true), vec!["0x0: brne .+4 ; 0x6"]);
}

#[test]
fn bit_indexed_branches_without_overloads() {
    assert_eq!(lines(0, vec![0xF011], false), vec!["0x0: brbs 1, .+4 ; 0x6"]);
    assert_eq!(lines(0, vec![0xF7F9], false), vec!["0x0: brbc 1, .-2 ; 0x0"]);
}

#[test]
fn two_word_instructions() {
    assert_eq!(lines(0, vec![0x940C, 0x1234], true), vec!["0x0: jmp 0x2468 ; 0x2468"]);
    assert_eq!(lines(0, vec![0x941E, 0x0001], true), vec!["0x0: call 0x40002 ; 0x40002"]);
    assert_eq!(lines(0, vec![0x9010, 0x0100, 0x0000], true), vec!["0x0: lds r1, 0x100", "0x4: nop"]);
    assert_eq!(lines(0, vec![0x9200, 0x0100], true), vec!["0x0: sts 256, r0"]);
}

#[test]
fn jmp_and_call_without_extension_are_truncated() {
    for word in [0x940Cu16, 0x940E, 0x9000, 0x9200] {
        let run = run_at(0x10, vec![0x0000, word]);
        let d = disassemble(&run, true);
        assert_eq!(d.instructions.len(), 1);
        assert_eq!(d.error, Some(DecodeError::TruncatedInstruction { address: 0x12, word }));
    }
}

#[test]
fn unknown_word_stops_the_run() {
    let rec = parse(":020000000100FD").unwrap();
    let runs = assemble(&vec![rec]);
    assert_eq!(runs.len(), 1);
    assert_eq!(runs[0].words, vec![0x0001]);
    let d = disassemble(&runs[0], true);
    assert!(d.instructions.is_empty());
    assert_eq!(d.error, Some(DecodeError::UnknownOpcode { address: 0, word: 0x0001 }));
    let d = disassemble(&run_at(0, vec![0x0000, 0x0001, 0x0000]), true);
    assert_eq!(d.instructions.len(), 1);
    assert_eq!(d.error, Some(DecodeError::UnknownOpcode { address: 2, word: 0x0001 }));
}

#[test]
fn operand_forms() {
    assert_eq!(lines(0, vec![0x0112], true), vec!["0x0: movw r3:r2, r5:r4"]);
    assert_eq!(lines(0, vec![0x9601], true), vec!["0x0: adiw r25:r24, 1"]);
    assert_eq!(lines(0, vec![0x0212], true), vec!["0x0: muls r17, r18"]);
    assert_eq!(lines(0, vec![0x1001], true), vec!["0x0: cpse r0, r1 ; 0x4 (or 0x6)"]);
    assert_eq!(lines(0, vec![0x9A2B], true), vec!["0x0: sbi 0x5, 3"]);
    assert_eq!(lines(0, vec![0xB000], true), vec!["0x0: in r0, 0x0"]);
    assert_eq!(lines(0, vec![0x900D], true), vec!["0x0: ld r0, X+"]);
    assert_eq!(lines(0, vec![0x921E], true), vec!["0x0: st -X, r1"]);
    assert_eq!(lines(0, vec![0x8A19], true), vec!["0x0: std Y+17, r1"]);
    assert_eq!(lines(0, vec![0x3F5F], true), vec!["0x0: cpi r21, 255"]);
    assert_eq!(lines(0, vec![0x9508], true), vec!["0x0: ret"]);
}

#[test]
fn end_to_end_record() {
    let rec = parse(":0400000001020304F2").unwrap();
    assert_eq!(rec.address, 0);
    assert_eq!(rec.record_type, RecordType::Data);
    assert_eq!(rec.data, vec![(0x02, 0x01), (0x04, 0x03)]);
    assert_eq!(rec.checksum, 0xF2);
    assert_eq!(
        rec.dump(),
        "size: 2, address: 0x0, index: Data,\ndata: \n    (0b00000010, 0b00000001), \n    (0b00000100, 0b00000011), \n"
    );
    let runs = assemble(&vec![rec]);
    assert_eq!(runs.len(), 1);
    assert_eq!(runs[0].words, vec![0x0201, 0x0403]);
    let d = disassemble(&runs[0], true);
    assert_eq!(d.error, None);
    let out: Vec<String> = d.instructions.iter().map(render).collect();
    assert_eq!(out, vec!["0x0: muls r16, r17", "0x2: cpc r0, r3"]);
}

#[test]
fn dump_of_empty_record() {
    let rec = parse(":00000001FF").unwrap();
    assert_eq!(rec.record_type, RecordType::EndOfFile);
    assert_eq!(rec.dump(), "size: 0, address: 0x0, index: EndOfFile,\n");
}

#[test]
fn parse_errors_name_the_field() {
    assert_eq!(parse("").err(), Some(RecordFormatError::BeginningOfRecord));
    assert_eq!(parse("0400000001020304F2").err(), Some(RecordFormatError::BeginningOfRecord));
    assert_eq!(parse(":G400000001020304F2").err(), Some(RecordFormatError::CalculatingTheSize));
    assert_eq!(parse(":0").err(), Some(RecordFormatError::CalculatingTheSize));
    assert_eq!(parse(":04XX000001020304F2").err(), Some(RecordFormatError::CalculatingTheAddress));
    assert_eq!(parse(":0400").err(), Some(RecordFormatError::CalculatingTheAddress));
    assert_eq!(parse(":040000").err(), Some(RecordFormatError::CalculatingIndex));
    assert_eq!(parse(":0400000601020304F2").err(), Some(RecordFormatError::CalculatingIndex));
    assert_eq!(parse(":04000000").err(), Some(RecordFormatError::CalculatingData));
    assert_eq!(parse(":040000000102").err(), Some(RecordFormatError::CalculatingData));
    assert_eq!(parse(":04000000010203ZZF2").err(), Some(RecordFormatError::CalculatingData));
    assert_eq!(parse(":0300000001020304F2").err(), Some(RecordFormatError::CalculatingData));
    assert_eq!(parse(":0400000001020304").err(), Some(RecordFormatError::CalculatingChecksum));
    assert_eq!(parse(":0400000001020304G2").err(), Some(RecordFormatError::CalculatingChecksum));
}

#[test]
fn parse_reads_both_cases_and_ignores_the_checksum_value() {
    let rec = parse(":02abCD04fFeE00").unwrap();
    assert_eq!(rec.address, 0xABCD);
    assert_eq!(rec.record_type, RecordType::ExtendedLinearAddress);
    assert_eq!(rec.data, vec![(0xEE, 0xFF)]);
    assert_eq!(rec.checksum, 0);
}

#[test]
fn adjacent_records_merge() {
    let a = parse(":0400000001020304F2").unwrap();
    let b = parse(":020004000000FA").unwrap();
    let runs = assemble(&vec![a, b]);
    assert_eq!(runs.len(), 1);
    assert_eq!(runs[0].base_address, 0);
    assert_eq!(runs[0].words, vec![0x0201, 0x0403, 0x0000]);
}

#[test]
fn gap_or_type_change_starts_a_new_run() {
    let a = parse(":0400000001020304F2").unwrap();
    let gap = parse(":020006000000F8").unwrap();
    let runs = assemble(&vec![a, gap]);
    assert_eq!(runs.len(), 2);
    assert_eq!(runs[1].base_address, 6);
    let a = parse(":0400000001020304F2").unwrap();
    let other = parse(":020004030000F7").unwrap();
    let runs = assemble(&vec![a, other]);
    assert_eq!(runs.len(), 2);
    assert_eq!(runs[1].record_type, RecordType::StartAddress80x86);
}

#[test]
fn merge_follows_input_order_only() {
    let first = parse(":020002000000FC").unwrap();
    let second = parse(":020000000000FE").unwrap();
    let runs = assemble(&vec![first, second]);
    assert_eq!(runs.len(), 2);
    assert_eq!(runs[0].base_address, 2);
    assert_eq!(runs[1].base_address, 0);
    assert!(assemble(&vec![]).is_empty());
}

#[test]
fn twos_complement_decoding() {
    assert_eq!(from_additional_code(true, 0x7FF, 0x7FF), -1);
    assert_eq!(from_additional_code(false, 5, 0x7FF), 5);
    assert_eq!(from_additional_code(true, 0, 0x3F), -64);
    assert_eq!(from_additional_code(true, 0x3E, 0x3F), -2);
    assert_eq!(from_additional_code(true, 0x3F, 0x7), -1);
}

#[test]
fn word_stream_reads_each_word_once() {
    let run = run_at(0x20, vec![0x940C, 0x0010, 0x0000]);
    let mut s = WordStream::new(&run);
    assert_eq!(s.address(), 0x20);
    assert_eq!(s.peek_next(), Some(0x940C));
    let first = decode_next(&mut s, true).ok().unwrap();
    assert_eq!(first.word_length, 2);
    assert_eq!(s.address(), 0x24);
    assert_eq!(s.advance(), Some(0x0000));
    assert!(s.is_exhausted());
    assert_eq!(s.peek_next(), None);
    assert_eq!(s.advance(), None);
}

#[test]
fn dump_shows_binary_pairs() {
    let rec = parse(":040000000102030CEA").unwrap();
    assert_eq!(
        rec.dump(),
        "size: 2, address: 0x0, index: Data,\ndata: \n    (0b00000010, 0b00000001), \n    (0b00001100, 0b00000011), \n"
    );
}

#[test]
fn merged_run_dumps_as_one_record() {
    let a = parse(":0400000001020304F2").unwrap();
    let b = parse(":020004000501F4").unwrap();
    let runs = assemble(&vec![a, b]);
    assert_eq!(runs.len(), 1);
    assert_eq!(
        runs[0].dump(),
        "size: 3, address: 0x0, index: Data,\ndata: \n    (0b00000010, 0b00000001), \n    (0b00000100, 0b00000011), \n    (0b00000001, 0b00000101), \n"
    );
    assert_eq!(run_at(0x10, vec![]).dump(), "size: 0, address: 0x10, index: Data,\n");
}
