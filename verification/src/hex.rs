//! Hex-dump view over an unrecognized buffer: one row per line of bytes,
//! with a fixed-width offset literal, grouped two-digit hex bytes, and a
//! printable-ASCII column.

use vstd::prelude::*;
use vstd::string::StringExecFns;

use crate::blob::{Blob, BlobError};
use crate::table::{Row, RowAction, Table, TableType, rows_match};
use crate::text;

verus! {

/// Errors raised by the hex view.
#[derive(Clone, Copy, Debug, PartialEq, Eq, Structural)]
pub enum HexError {
    /// An internal text-rendering failure.
    Formatting,
    /// A bounds violation reported by the buffer.
    BlobCorrupted(BlobError),
}

/// The line width actually used: a zero request is clamped to the default of
/// sixteen bytes per line, since a zero step could never advance.
pub open spec fn effective_bpl(bytes_per_line: u32) -> int {
    if bytes_per_line == 0 {
        16
    } else {
        bytes_per_line as int
    }
}

/// Printable-ASCII display of one byte: the character itself inside
/// `0x20..=0x7E`, a dot for everything else.
pub open spec fn ascii_char(b: u8) -> char {
    if 0x20 <= b && b <= 0x7e {
        b as char
    } else {
        '.'
    }
}

/// The ASCII column for `count` bytes starting at `off`.
pub open spec fn ascii_cell(s: Seq<u8>, off: int, count: nat) -> Seq<char> {
    Seq::new(count, |k: int| ascii_char(s[off + k]))
}

/// The hex column for `count` bytes starting at `off`: two upper-case digits
/// per byte, separated by single spaces.
pub open spec fn hex_bytes_cell(s: Seq<u8>, off: int, count: nat) -> Seq<char>
    decreases count,
{
    if count == 0 {
        Seq::empty()
    } else if count == 1 {
        text::hex_upper(s[off] as nat, 2)
    } else {
        hex_bytes_cell(s, off, (count - 1) as nat) + seq![' '] + text::hex_upper(
            s[off + count - 1] as nat,
            2,
        )
    }
}

/// The three cells of the dump row starting at `off`: offset literal, hex
/// bytes, ASCII bytes.
pub open spec fn hex_row_at(s: Seq<u8>, bpl: int, off: int) -> Seq<Seq<char>> {
    let count = if s.len() - off < bpl {
        (s.len() - off) as nat
    } else {
        bpl as nat
    };
    seq![
        text::hex_literal(off as nat, 16),
        hex_bytes_cell(s, off, count),
        ascii_cell(s, off, count),
    ]
}

/// All dump rows from `off` to the end of the buffer, one per `bpl` bytes.
pub open spec fn hex_rows(s: Seq<u8>, bpl: int, off: int) -> Seq<Seq<Seq<char>>>
    decreases s.len() - off,
        when bpl >= 1

{
    if off < 0 || off >= s.len() {
        Seq::empty()
    } else {
        let next = if off + bpl > s.len() {
            s.len() as int
        } else {
            off + bpl
        };
        seq![hex_row_at(s, bpl, off)] + hex_rows(s, bpl, next)
    }
}

/// The column headers of a hex dump table.
pub open spec fn hex_headers() -> Seq<Seq<char>> {
    seq!["Offset"@, ""@, "ASCII"@]
}

/// Hex-dump presentation of a buffer of unrecognized format.
pub struct HexBinary {
    blob: Blob,
}

impl View for HexBinary {
    type V = Seq<u8>;

    closed spec fn view(&self) -> Seq<u8> {
        self.blob@
    }
}

impl HexBinary {
    /// Wraps a buffer; any content is acceptable for a hex view.
    pub fn new(blob: Blob) -> (h: HexBinary)
        ensures
            h@ == blob@,
    {
        HexBinary { blob }
    }

    /// Identification rows shown for an unrecognized buffer.
    pub fn header_info(&self) -> (r: Vec<(String, String)>)
        ensures
            r@.len() == 1,
            r@[0].0@ == "Ident"@,
            r@[0].1@ == "Unknown file"@,
    {
        let mut info: Vec<(String, String)> = Vec::new();
        info.push((String::from_str("Ident"), String::from_str("Unknown file")));
        info
    }

    /// The dump table: one row per `bytes_per_line` bytes (zero is clamped
    /// to sixteen), each row an offset literal, spaced two-digit upper-case
    /// hex bytes, and a printable-ASCII column. Every read is within bounds
    /// by construction, so the dump always succeeds.
    pub fn as_hex_table(&self, bytes_per_line: u32) -> (r: Result<Table, HexError>)
        ensures
            r is Ok,
            r->Ok_0.table_type == TableType::Hex,
            r->Ok_0.headline.deep_view() == hex_headers(),
            rows_match(r->Ok_0.rows@, hex_rows(self@, effective_bpl(bytes_per_line), 0)),
    {
        let bpl: usize = if bytes_per_line == 0 {
            16
        } else {
            bytes_per_line as usize
        };
        let len: usize = self.blob.len();
        let ghost full = hex_rows(self@, bpl as int, 0);
        let mut rows: Vec<Row> = Vec::new();
        let mut offset: usize = 0;
        while offset < len
            invariant
                1 <= bpl == effective_bpl(bytes_per_line),
                offset <= len,
                len == self@.len(),
                full == hex_rows(self@, bpl as int, 0),
                rows_match(rows@, full.take(rows@.len() as int)),
                full =~~= full.take(rows@.len() as int) + hex_rows(self@, bpl as int, offset as int),
            decreases len - offset,
        {
            let end: usize = if len - offset < bpl {
                len
            } else {
                offset + bpl
            };
            let offset_string = text::hex_literal_string(offset as u64, 16);
            let mut bytes_chars: Vec<char> = Vec::new();
            let mut ascii_chars: Vec<char> = Vec::new();
            let mut idx: usize = offset;
            while idx < end
                invariant
                    offset <= idx <= end <= len,
                    len == self@.len(),
                    bytes_chars@ == hex_bytes_cell(self@, offset as int, (idx - offset) as nat),
                    ascii_chars@ == ascii_cell(self@, offset as int, (idx - offset) as nat),
                decreases end - idx,
            {
                let b = self.blob.byte_at(idx);
                if idx > offset {
                    bytes_chars.push(' ');
                }
                text::push_hex_upper(&mut bytes_chars, b as u64, 2);
                let c: char = if 0x20 <= b && b <= 0x7e {
                    b as char
                } else {
                    '.'
                };
                ascii_chars.push(c);
                proof {
                    assert(bytes_chars@ =~= hex_bytes_cell(
                        self@,
                        offset as int,
                        (idx + 1 - offset) as nat,
                    ));
                    assert(ascii_chars@ =~= ascii_cell(self@, offset as int, (idx + 1 - offset) as nat));
                }
                idx = idx + 1;
            }
            let mut content: Vec<String> = Vec::new();
            content.push(offset_string);
            content.push(text::chars_to_string(bytes_chars));
            content.push(text::chars_to_string(ascii_chars));
            let row = Row { action: RowAction::Inert, content };
            proof {
                assert(row.cells() =~~= hex_row_at(self@, bpl as int, offset as int));
            }
            rows.push(row);
            proof {
                let k = rows@.len() as int;
                assert(hex_rows(self@, bpl as int, offset as int) =~~= seq![
                    hex_row_at(self@, bpl as int, offset as int),
                ] + hex_rows(self@, bpl as int, end as int));
                assert(full.take(k) =~~= full.take(k - 1) + seq![
                    hex_row_at(self@, bpl as int, offset as int),
                ]);
                assert(rows_match(rows@, full.take(k)));
                assert(full =~~= full.take(k) + hex_rows(self@, bpl as int, end as int));
            }
            offset = end;
        }
        proof {
            assert(hex_rows(self@, bpl as int, offset as int) =~~= Seq::empty());
            assert(full.take(rows@.len() as int) =~~= full);
        }
        let headers: [&str; 3] = ["Offset", "", "ASCII"];
        let table = Table::new(TableType::Hex, headers.as_slice(), rows);
        proof {
            assert(table.headline.deep_view() =~~= hex_headers());
        }
        Ok(table)
    }
}

} // verus!
