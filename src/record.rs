//! Intel HEX records: parsing one text line, and the diagnostic dump.
use vstd::prelude::*;
use crate::text::{
    bin_byte, dec, hex, hex_byte, hex_byte_at, hex_word, hex_word_at, push_bin_byte, push_dec,
    push_hex,
};

verus! {

/// The record type field of an Intel HEX record.
#[derive(Clone, Copy, Debug, PartialEq, Eq, Structural)]
pub enum RecordType {
    Data,
    EndOfFile,
    ExtendedSegmentAddress,
    StartAddress80x86,
    ExtendedLinearAddress,
    LinearAddress,
}

/// Why a text line is not a well-formed record; each names the field that failed.
#[derive(Clone, Copy, Debug, PartialEq, Eq, Structural)]
pub enum RecordFormatError {
    BeginningOfRecord,
    CalculatingTheSize,
    CalculatingTheAddress,
    CalculatingIndex,
    CalculatingData,
    CalculatingChecksum,
}

/// One parsed record.
///
/// `data` holds the payload as word-sized pairs: the first element of a pair is
/// the byte written second in the text, the second element the byte written
/// first, so that `(a, b)` is the little-endian word `a * 256 + b`.
pub struct Record {
    pub address: u16,
    pub record_type: RecordType,
    pub data: Vec<(u8, u8)>,
    pub checksum: u8,
}

pub struct RecordView {
    pub address: u16,
    pub record_type: RecordType,
    pub data: Seq<(u8, u8)>,
    pub checksum: u8,
}

impl View for Record {
    type V = RecordView;

    open spec fn view(&self) -> RecordView {
        RecordView {
            address: self.address,
            record_type: self.record_type,
            data: self.data@,
            checksum: self.checksum,
        }
    }
}

/// The largest number of pairs a record holds: its byte count is one byte.
pub const MAX_PAIRS: usize = 127;

impl RecordView {
    /// The payload fits the one-byte count of the record format.
    pub open spec fn wf(&self) -> bool {
        self.data.len() <= MAX_PAIRS
    }
}

/// The record type numbered `v` in the record format.
pub open spec fn record_type_of(v: nat) -> Option<RecordType> {
    if v == 0 {
        Some(RecordType::Data)
    } else if v == 1 {
        Some(RecordType::EndOfFile)
    } else if v == 2 {
        Some(RecordType::ExtendedSegmentAddress)
    } else if v == 3 {
        Some(RecordType::StartAddress80x86)
    } else if v == 4 {
        Some(RecordType::ExtendedLinearAddress)
    } else if v == 5 {
        Some(RecordType::LinearAddress)
    } else {
        None
    }
}

/// Character index at which the payload starts.
pub open spec fn data_start() -> int {
    9
}

/// The `k`-th payload pair: the byte at offset two of the four digits comes first.
pub open spec fn pair_at(s: Seq<char>, k: int) -> Option<(u8, u8)> {
    let i = data_start() + 4 * k;
    if hex_byte_at(s, i + 2) is Some && hex_byte_at(s, i) is Some {
        Some((hex_byte_at(s, i + 2)->0 as u8, hex_byte_at(s, i)->0 as u8))
    } else {
        None
    }
}

/// All of the first `m` payload pairs are well-formed.
pub open spec fn pairs_ok(s: Seq<char>, m: int) -> bool {
    forall|k: int| 0 <= k < m ==> #[trigger] pair_at(s, k) is Some
}

/// What one text line parses to.
///
/// The fields are read in the order of the format: the colon, the byte count,
/// the address, the type, the payload (an even number of bytes, read as pairs)
/// and the checksum, which is read but not compared with the record's sum.
/// Text after the checksum is ignored.
pub open spec fn parse_record(s: Seq<char>) -> Result<RecordView, RecordFormatError> {
    if s.len() < 1 || s[0] != ':' {
        Err(RecordFormatError::BeginningOfRecord)
    } else if hex_byte_at(s, 1) is None {
        Err(RecordFormatError::CalculatingTheSize)
    } else if hex_word_at(s, 3) is None {
        Err(RecordFormatError::CalculatingTheAddress)
    } else if hex_byte_at(s, 7) is None || record_type_of(hex_byte_at(s, 7)->0) is None {
        Err(RecordFormatError::CalculatingIndex)
    } else {
        let n = hex_byte_at(s, 1)->0;
        let m = (n / 2) as int;
        if n % 2 == 1 || !pairs_ok(s, m) {
            Err(RecordFormatError::CalculatingData)
        } else if hex_byte_at(s, data_start() + 2 * n) is None {
            Err(RecordFormatError::CalculatingChecksum)
        } else {
            Ok(
                RecordView {
                    address: hex_word_at(s, 3)->0 as u16,
                    record_type: record_type_of(hex_byte_at(s, 7)->0)->0,
                    data: Seq::new(m as nat, |k: int| pair_at(s, k)->0),
                    checksum: hex_byte_at(s, data_start() + 2 * n)->0 as u8,
                },
            )
        }
    }
}

/// The name under which the dump shows a record type.
pub open spec fn record_type_label(t: RecordType) -> Seq<char> {
    match t {
        RecordType::Data => "Data"@,
        RecordType::EndOfFile => "EndOfFile"@,
        RecordType::ExtendedSegmentAddress => "ExtendedSegmentAddress"@,
        RecordType::StartAddress80x86 => "StartAddress80x86"@,
        RecordType::ExtendedLinearAddress => "ExtendedLinearAddress"@,
        RecordType::LinearAddress => "LinearAddress"@,
    }
}

/// One line of the dump per payload pair, both bytes in binary.
pub open spec fn pairs_text(data: Seq<(u8, u8)>) -> Seq<char>
    decreases data.len(),
{
    if data.len() == 0 {
        seq![]
    } else {
        let p = data.last();
        pairs_text(data.drop_last()) + "    ("@ + bin_byte(p.0) + ", "@ + bin_byte(p.1)
            + "), \n"@
    }
}

/// The diagnostic dump of a payload at `address` of type `t`: its size in
/// pairs, address and type, then one line per pair.
pub open spec fn dump_of(address: u16, t: RecordType, data: Seq<(u8, u8)>) -> Seq<char> {
    if data.len() == 0 {
        dump_head(address, t, data.len())
    } else {
        dump_head(address, t, data.len()) + "data: \n"@ + pairs_text(data)
    }
}

/// The first line of the dump.
pub open spec fn dump_head(address: u16, t: RecordType, size: nat) -> Seq<char> {
    "size: "@ + dec(size) + ", address: "@ + hex(address as nat) + ", index: "@
        + record_type_label(t) + ",\n"@
}

/// The diagnostic dump of a record.
pub open spec fn dump_text(r: RecordView) -> Seq<char> {
    dump_of(r.address, r.record_type, r.data)
}

/// Renders the diagnostic dump of a payload at `address` of type `t`.
pub fn dump_pairs(address: u16, t: RecordType, data: &Vec<(u8, u8)>) -> (r: String)
    ensures
        r@ == dump_of(address, t, data@),
{
    let mut s = String::from_str("size: ");
    push_dec(&mut s, data.len() as u64);
    s.append(", address: ");
    push_hex(&mut s, address as u64);
    s.append(", index: ");
    s.append(label_text(t));
    s.append(",\n");
    assert(s@ =~= dump_head(address, t, data@.len()));
    if data.len() > 0 {
        s.append("data: \n");
        assert(data@.subrange(0, 0) =~= Seq::<(u8, u8)>::empty());
        let mut k: usize = 0;
        while k < data.len()
            invariant
                k <= data@.len(),
                s@ == dump_head(address, t, data@.len()) + "data: \n"@ + pairs_text(
                    data@.subrange(0, k as int),
                ),
            decreases data@.len() - k,
        {
            let p = data[k];
            s.append("    (");
            push_bin_byte(&mut s, p.0);
            s.append(", ");
            push_bin_byte(&mut s, p.1);
            s.append("), \n");
            assert(data@.subrange(0, k + 1).drop_last() =~= data@.subrange(0, k as int));
            k = k + 1;
        }
        assert(data@.subrange(0, k as int) =~= data@);
    }
    s
}

fn record_type_from(v: u8) -> (r: Option<RecordType>)
    ensures
        r == record_type_of(v as nat),
{
    match v {
        0 => Some(RecordType::Data),
        1 => Some(RecordType::EndOfFile),
        2 => Some(RecordType::ExtendedSegmentAddress),
        3 => Some(RecordType::StartAddress80x86),
        4 => Some(RecordType::ExtendedLinearAddress),
        5 => Some(RecordType::LinearAddress),
        _ => None,
    }
}

fn label_text(t: RecordType) -> (r: &'static str)
    ensures
        r@ == record_type_label(t),
{
    match t {
        RecordType::Data => "Data",
        RecordType::EndOfFile => "EndOfFile",
        RecordType::ExtendedSegmentAddress => "ExtendedSegmentAddress",
        RecordType::StartAddress80x86 => "StartAddress80x86",
        RecordType::ExtendedLinearAddress => "ExtendedLinearAddress",
        RecordType::LinearAddress => "LinearAddress",
    }
}

impl Record {
    /// Parses one Intel HEX line.
    pub fn from_str(hex: &String) -> (r: Result<Record, RecordFormatError>)
        ensures
            parse_record(hex@) == (match r {
                Ok(rec) => Ok(rec@),
                Err(e) => Err(e),
            }),
            r matches Ok(rec) ==> rec@.wf(),
    {
        let s = hex.as_str();
        let len = s.unicode_len();
        if len < 1 || s.get_char(0) != ':' {
            return Err(RecordFormatError::BeginningOfRecord);
        }
        let n = match hex_byte(s, 1) {
            Some(v) => v,
            None => return Err(RecordFormatError::CalculatingTheSize),
        };
        let address = match hex_word(s, 3) {
            Some(v) => v,
            None => return Err(RecordFormatError::CalculatingTheAddress),
        };
        let record_type = match hex_byte(s, 7) {
            Some(v) => match record_type_from(v) {
                Some(t) => t,
                None => return Err(RecordFormatError::CalculatingIndex),
            },
            None => return Err(RecordFormatError::CalculatingIndex),
        };
        if n % 2 == 1 {
            return Err(RecordFormatError::CalculatingData);
        }
        let m: usize = (n / 2) as usize;
        let mut data: Vec<(u8, u8)> = Vec::new();
        let mut k: usize = 0;
        while k < m
            invariant
                k <= m,
                m == n / 2,
                s@ == hex@,
                hex@.len() >= 1 && hex@[0] == ':',
                hex_byte_at(hex@, 1) == Some(n as nat),
                hex_word_at(hex@, 3) == Some(address as nat),
                hex_byte_at(hex@, 7) is Some,
                record_type_of(hex_byte_at(hex@, 7)->0) == Some(record_type),
                n % 2 == 0,
                data@ =~= Seq::new(k as nat, |j: int| pair_at(s@, j)->0),
                pairs_ok(s@, k as int),
            decreases m - k,
        {
            let i: usize = 9 + 4 * k;
            let hi = hex_byte(s, i + 2);
            let lo = hex_byte(s, i);
            match (hi, lo) {
                (Some(h), Some(l)) => {
                    data.push((h, l));
                },
                _ => {
                    assert(pair_at(s@, k as int) is None);
                    assert(!pairs_ok(hex@, (n as nat / 2) as int));
                    return Err(RecordFormatError::CalculatingData);
                },
            }
            k = k + 1;
        }
        let checksum = match hex_byte(s, 9 + 2 * n as usize) {
            Some(v) => v,
            None => return Err(RecordFormatError::CalculatingChecksum),
        };
        let rec = Record { address, record_type, data, checksum };
        assert(rec@.data =~= Seq::new(m as nat, |j: int| pair_at(hex@, j)->0));
        Ok(rec)
    }

    /// The diagnostic dump of this record.
    pub fn dump(&self) -> (r: String)
        ensures
            r@ == dump_text(self@),
    {
        dump_pairs(self.address, self.record_type, &self.data)
    }
}

} // verus!
