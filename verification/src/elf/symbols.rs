//! Per-record decoders for ELF symbol-table rows, in the 32-bit and 64-bit
//! layouts. Unknown numeric codes decode to an explicit `Unknown` variant
//! instead of failing the record.

use vstd::prelude::*;
use vstd::string::StringExecFns;

use crate::blob::{Blob, BlobError, cstring_chars, has_nul, le16, le32, le64};
use crate::text;

verus! {

/// Binding of a symbol, from the high nibble of its info byte.
#[derive(Clone, Copy, Debug, PartialEq, Eq, Structural)]
pub enum SymbolBinding {
    Local,
    Global,
    Weak,
    Unknown,
}

/// Kind of a symbol, from the low nibble of its info byte.
#[derive(Clone, Copy, Debug, PartialEq, Eq, Structural)]
pub enum SymbolType {
    NoType,
    Object,
    Func,
    Section,
    File,
    Common,
    Tls,
    Unknown,
}

/// Decoding of a binding code; anything past the known range is `Unknown`.
pub open spec fn binding_of(v: int) -> SymbolBinding {
    if v == 0 {
        SymbolBinding::Local
    } else if v == 1 {
        SymbolBinding::Global
    } else if v == 2 {
        SymbolBinding::Weak
    } else {
        SymbolBinding::Unknown
    }
}

/// Decoding of a type code; anything past the known range is `Unknown`.
pub open spec fn sym_type_of(v: int) -> SymbolType {
    if v == 0 {
        SymbolType::NoType
    } else if v == 1 {
        SymbolType::Object
    } else if v == 2 {
        SymbolType::Func
    } else if v == 3 {
        SymbolType::Section
    } else if v == 4 {
        SymbolType::File
    } else if v == 5 {
        SymbolType::Common
    } else if v == 6 {
        SymbolType::Tls
    } else {
        SymbolType::Unknown
    }
}

/// Display name of a binding.
pub open spec fn binding_name(b: SymbolBinding) -> Seq<char> {
    match b {
        SymbolBinding::Local => "Local"@,
        SymbolBinding::Global => "Global"@,
        SymbolBinding::Weak => "Weak"@,
        SymbolBinding::Unknown => "Unknown"@,
    }
}

/// Display name of a symbol type.
pub open spec fn sym_type_name(t: SymbolType) -> Seq<char> {
    match t {
        SymbolType::NoType => "NoType"@,
        SymbolType::Object => "Object"@,
        SymbolType::Func => "Func"@,
        SymbolType::Section => "Section"@,
        SymbolType::File => "File"@,
        SymbolType::Common => "Common"@,
        SymbolType::Tls => "Tls"@,
        SymbolType::Unknown => "Unknown"@,
    }
}

impl SymbolBinding {
    /// Decodes a binding code with the `Unknown` fallback.
    pub fn from_code(v: u8) -> (b: SymbolBinding)
        ensures
            b == binding_of(v as int),
    {
        match v {
            0 => SymbolBinding::Local,
            1 => SymbolBinding::Global,
            2 => SymbolBinding::Weak,
            _ => SymbolBinding::Unknown,
        }
    }

    /// Display name of the binding.
    pub fn name(&self) -> (s: String)
        ensures
            s@ == binding_name(*self),
    {
        match self {
            SymbolBinding::Local => String::from_str("Local"),
            SymbolBinding::Global => String::from_str("Global"),
            SymbolBinding::Weak => String::from_str("Weak"),
            SymbolBinding::Unknown => String::from_str("Unknown"),
        }
    }
}

impl SymbolType {
    /// Decodes a type code with the `Unknown` fallback.
    pub fn from_code(v: u8) -> (t: SymbolType)
        ensures
            t == sym_type_of(v as int),
    {
        match v {
            0 => SymbolType::NoType,
            1 => SymbolType::Object,
            2 => SymbolType::Func,
            3 => SymbolType::Section,
            4 => SymbolType::File,
            5 => SymbolType::Common,
            6 => SymbolType::Tls,
            _ => SymbolType::Unknown,
        }
    }

    /// Display name of the type.
    pub fn name(&self) -> (s: String)
        ensures
            s@ == sym_type_name(*self),
    {
        match self {
            SymbolType::NoType => String::from_str("NoType"),
            SymbolType::Object => String::from_str("Object"),
            SymbolType::Func => String::from_str("Func"),
            SymbolType::Section => String::from_str("Section"),
            SymbolType::File => String::from_str("File"),
            SymbolType::Common => String::from_str("Common"),
            SymbolType::Tls => String::from_str("Tls"),
            SymbolType::Unknown => String::from_str("Unknown"),
        }
    }
}

/// Mathematical content of a decoded symbol record.
pub struct SymbolView {
    pub name: Option<Seq<char>>,
    pub symbol_type: SymbolType,
    pub binding: SymbolBinding,
    pub other: u8,
    pub index: u16,
    pub value: u64,
    pub size: u64,
}

/// Decoded content of the 64-bit symbol record at `off`, with its name
/// resolved against the string table at `st`. A zero name offset means the
/// name is absent by convention, and is never dereferenced.
pub open spec fn spec_symbol64(s: Seq<u8>, off: int, st: int) -> SymbolView {
    SymbolView {
        name: if le32(s, off) == 0 {
            None
        } else {
            Some(cstring_chars(s, st + le32(s, off)))
        },
        symbol_type: sym_type_of(s[off + 4] as int % 16),
        binding: binding_of(s[off + 4] as int / 16),
        other: s[off + 5],
        index: le16(s, off + 6) as u16,
        value: le64(s, off + 8) as u64,
        size: le64(s, off + 16) as u64,
    }
}

/// Whether the name of the 64-bit symbol record at `off` resolves: either it
/// is absent, or the string table holds a terminated string for it.
pub open spec fn symbol64_name_ok(s: Seq<u8>, off: int, st: int) -> bool {
    le32(s, off) == 0 || has_nul(s, st + le32(s, off))
}

/// One row of a 64-bit symbol table as its display cells: type, binding,
/// other, value, size, section index, name.
pub open spec fn symbol64_cells(v: SymbolView) -> Seq<Seq<char>> {
    seq![
        sym_type_name(v.symbol_type),
        binding_name(v.binding),
        text::hex_literal(v.other as nat, 2),
        text::hex_literal(v.value as nat, 16),
        text::hex_literal(v.size as nat, 16),
        text::hex_literal(v.index as nat, 4),
        name_cell(v.name),
    ]
}

/// Display of a resolved name: `*unnamed*` when absent, `*empty*` when it
/// resolves to a zero-length string, otherwise the text itself.
pub open spec fn name_cell(name: Option<Seq<char>>) -> Seq<char> {
    match name {
        None => "*unnamed*"@,
        Some(n) => if n.len() == 0 {
            "*empty*"@
        } else {
            n
        },
    }
}

/// Renders a resolved name for display.
pub fn name_cell_string(name: &Option<String>) -> (s: String)
    ensures
        s@ == name_cell(name.deep_view()),
{
    match name {
        None => String::from_str("*unnamed*"),
        Some(n) => {
            if n.as_str().is_empty() {
                String::from_str("*empty*")
            } else {
                n.clone()
            }
        },
    }
}

/// An out-of-range code inside a valid record never aborts its decoding:
/// a low nibble past the known types or a high nibble past the known
/// bindings renders as `Unknown`, and every other field of the record
/// decodes normally.
pub proof fn lemma_out_of_range_codes_render_unknown(s: Seq<u8>, off: int, st: int)
    ensures
        ({
            let v = spec_symbol64(s, off, st);
            &&& (s[off + 4] as int % 16 > 6 ==> v.symbol_type == SymbolType::Unknown
                && symbol64_cells(v)[0] == "Unknown"@)
            &&& (s[off + 4] as int / 16 > 2 ==> v.binding == SymbolBinding::Unknown
                && symbol64_cells(v)[1] == "Unknown"@)
            &&& v.other == s[off + 5]
            &&& v.index == le16(s, off + 6)
            &&& v.value == le64(s, off + 8)
            &&& v.size == le64(s, off + 16)
        }),
{
}

/// One decoded 64-bit symbol-table record.
pub struct Symbol64 {
    /// Resolved name text; absent when the record's name offset is zero.
    pub name: Option<String>,
    pub symbol_type: SymbolType,
    pub binding: SymbolBinding,
    /// Reserved byte with no defined meaning.
    pub other: u8,
    /// Associated section index.
    pub index: u16,
    /// Value of the symbol.
    pub value: u64,
    /// Associated symbol size.
    pub size: u64,
}

impl View for Symbol64 {
    type V = SymbolView;

    open spec fn view(&self) -> SymbolView {
        SymbolView {
            name: self.name.deep_view(),
            symbol_type: self.symbol_type,
            binding: self.binding,
            other: self.other,
            index: self.index,
            value: self.value,
            size: self.size,
        }
    }
}

impl Symbol64 {
    /// Decodes the 24-byte record at `off`, resolving the name against the
    /// string table at `string_table_offset`. Fails with `OutOfBounds`
    /// exactly when the record runs past the buffer end or a non-zero name
    /// offset has no terminated string; an out-of-range type or binding code
    /// never fails the record.
    pub fn decode(blob: &Blob, off: usize, string_table_offset: u64) -> (r: Result<
        Symbol64,
        BlobError,
    >)
        ensures
            off + 24 <= blob@.len() && symbol64_name_ok(blob@, off as int, string_table_offset as int)
                ==> r is Ok && r->Ok_0@ == spec_symbol64(blob@, off as int, string_table_offset as int),
            !(off + 24 <= blob@.len() && symbol64_name_ok(
                blob@,
                off as int,
                string_table_offset as int,
            )) ==> r == Err::<Symbol64, BlobError>(BlobError::OutOfBounds),
    {
        if blob.len() < 24 || off > blob.len() - 24 {
            return Err(BlobError::OutOfBounds);
        }
        let name_off: u32 = match blob.get_u32(off) {
            Ok(v) => v,
            Err(e) => {
                return Err(e);
            },
        };
        let name: Option<String> = if name_off == 0 {
            None
        } else {
            let name_addr_wide: u128 = string_table_offset as u128 + name_off as u128;
            if name_addr_wide > blob.len() as u128 {
                return Err(BlobError::OutOfBounds);
            }
            match blob.get_cstring((string_table_offset + name_off as u64) as usize) {
                Ok(text) => Some(text),
                Err(e) => {
                    return Err(e);
                },
            }
        };
        let info: u8 = blob.byte_at(off + 4);
        let other: u8 = blob.byte_at(off + 5);
        let index: u16 = match blob.get_u16(off + 6) {
            Ok(v) => v,
            Err(e) => {
                return Err(e);
            },
        };
        let value: u64 = match blob.get_u64(off + 8) {
            Ok(v) => v,
            Err(e) => {
                return Err(e);
            },
        };
        let size: u64 = match blob.get_u64(off + 16) {
            Ok(v) => v,
            Err(e) => {
                return Err(e);
            },
        };
        Ok(
            Symbol64 {
                name,
                symbol_type: SymbolType::from_code(info % 16),
                binding: SymbolBinding::from_code(info / 16),
                other,
                index,
                value,
                size,
            },
        )
    }

    /// The display cells of the record: type, binding, other, value, size,
    /// section index, name.
    pub fn row_cells(&self) -> (cells: Vec<String>)
        ensures
            cells.deep_view() == symbol64_cells(self@),
    {
        let mut cells: Vec<String> = Vec::new();
        cells.push(self.symbol_type.name());
        cells.push(self.binding.name());
        cells.push(text::hex_literal_string(self.other as u64, 2));
        cells.push(text::hex_literal_string(self.value, 16));
        cells.push(text::hex_literal_string(self.size, 16));
        cells.push(text::hex_literal_string(self.index as u64, 4));
        cells.push(name_cell_string(&self.name));
        proof {
            assert(cells.deep_view() =~~= symbol64_cells(self@));
        }
        cells
    }
}

/// Decoded content of the 16-byte 32-bit symbol record at `off`: the same
/// field order as the 64-bit layout with four-byte value and size.
pub open spec fn spec_symbol32(s: Seq<u8>, off: int, st: int) -> SymbolView {
    SymbolView {
        name: if le32(s, off) == 0 {
            None
        } else {
            Some(cstring_chars(s, st + le32(s, off)))
        },
        symbol_type: sym_type_of(s[off + 4] as int % 16),
        binding: binding_of(s[off + 4] as int / 16),
        other: s[off + 5],
        index: le16(s, off + 6) as u16,
        value: le32(s, off + 8) as u64,
        size: le32(s, off + 12) as u64,
    }
}

/// Whether the name of the 32-bit symbol record at `off` resolves.
pub open spec fn symbol32_name_ok(s: Seq<u8>, off: int, st: int) -> bool {
    le32(s, off) == 0 || has_nul(s, st + le32(s, off))
}

/// One row of a 32-bit symbol table as its display cells; value and size
/// render at the narrower width.
pub open spec fn symbol32_cells(v: SymbolView) -> Seq<Seq<char>> {
    seq![
        sym_type_name(v.symbol_type),
        binding_name(v.binding),
        text::hex_literal(v.other as nat, 2),
        text::hex_literal(v.value as nat, 8),
        text::hex_literal(v.size as nat, 8),
        text::hex_literal(v.index as nat, 4),
        name_cell(v.name),
    ]
}

/// One decoded 32-bit symbol-table record.
pub struct Symbol32 {
    /// Resolved name text; absent when the record's name offset is zero.
    pub name: Option<String>,
    pub symbol_type: SymbolType,
    pub binding: SymbolBinding,
    /// Reserved byte with no defined meaning.
    pub other: u8,
    /// Associated section index.
    pub index: u16,
    /// Value of the symbol.
    pub value: u32,
    /// Associated symbol size.
    pub size: u32,
}

impl View for Symbol32 {
    type V = SymbolView;

    open spec fn view(&self) -> SymbolView {
        SymbolView {
            name: self.name.deep_view(),
            symbol_type: self.symbol_type,
            binding: self.binding,
            other: self.other,
            index: self.index,
            value: self.value as u64,
            size: self.size as u64,
        }
    }
}

impl Symbol32 {
    /// Decodes the 16-byte record at `off`, resolving the name against the
    /// string table at `string_table_offset`; failure conditions mirror the
    /// 64-bit decoder.
    pub fn decode(blob: &Blob, off: usize, string_table_offset: u64) -> (r: Result<
        Symbol32,
        BlobError,
    >)
        ensures
            off + 16 <= blob@.len() && symbol32_name_ok(blob@, off as int, string_table_offset as int)
                ==> r is Ok && r->Ok_0@ == spec_symbol32(blob@, off as int, string_table_offset as int),
            !(off + 16 <= blob@.len() && symbol32_name_ok(
                blob@,
                off as int,
                string_table_offset as int,
            )) ==> r == Err::<Symbol32, BlobError>(BlobError::OutOfBounds),
    {
        if blob.len() < 16 || off > blob.len() - 16 {
            return Err(BlobError::OutOfBounds);
        }
        let name_off: u32 = match blob.get_u32(off) {
            Ok(v) => v,
            Err(e) => {
                return Err(e);
            },
        };
        let name: Option<String> = if name_off == 0 {
            None
        } else {
            let name_addr_wide: u128 = string_table_offset as u128 + name_off as u128;
            if name_addr_wide > blob.len() as u128 {
                return Err(BlobError::OutOfBounds);
            }
            match blob.get_cstring((string_table_offset + name_off as u64) as usize) {
                Ok(text) => Some(text),
                Err(e) => {
                    return Err(e);
                },
            }
        };
        let info: u8 = blob.byte_at(off + 4);
        let other: u8 = blob.byte_at(off + 5);
        let index: u16 = match blob.get_u16(off + 6) {
            Ok(v) => v,
            Err(e) => {
                return Err(e);
            },
        };
        let value: u32 = match blob.get_u32(off + 8) {
            Ok(v) => v,
            Err(e) => {
                return Err(e);
            },
        };
        let size: u32 = match blob.get_u32(off + 12) {
            Ok(v) => v,
            Err(e) => {
                return Err(e);
            },
        };
        Ok(
            Symbol32 {
                name,
                symbol_type: SymbolType::from_code(info % 16),
                binding: SymbolBinding::from_code(info / 16),
                other,
                index,
                value,
                size,
            },
        )
    }

    /// The display cells of the record: type, binding, other, value, size,
    /// section index, name.
    pub fn row_cells(&self) -> (cells: Vec<String>)
        ensures
            cells.deep_view() == symbol32_cells(self@),
    {
        let mut cells: Vec<String> = Vec::new();
        cells.push(self.symbol_type.name());
        cells.push(self.binding.name());
        cells.push(text::hex_literal_string(self.other as u64, 2));
        cells.push(text::hex_literal_string(self.value as u64, 8));
        cells.push(text::hex_literal_string(self.size as u64, 8));
        cells.push(text::hex_literal_string(self.index as u64, 4));
        cells.push(name_cell_string(&self.name));
        proof {
            assert(cells.deep_view() =~~= symbol32_cells(self@));
        }
        cells
    }
}

} // verus!
