//! Disassembler for AVR machine code supplied as Intel HEX records.
//!
//! The pipeline is: [`record`] parses one text line into a record,
//! [`assembler`] merges adjacent records into runs of instruction words,
//! [`decoder`] walks a run word by word against the opcode table of
//! [`table`], and renders each decoded instruction as a listing line.
pub mod assembler;
pub mod decoder;
pub mod pattern;
pub mod record;
pub mod table;
pub mod text;
