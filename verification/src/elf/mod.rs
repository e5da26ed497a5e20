//! ELF decoding: identification header, section-header table, and symbol
//! tables, all derived from bounds-checked reads over an immutable buffer.
//! Header-declared offsets and counts are untrusted: every table walk is
//! bounds-checked and surfaces a violation as an error instead of reading
//! adjacent memory or returning a partial table.

pub mod sections;
pub mod symbols;

use vstd::prelude::*;
use vstd::string::StringExecFns;

use crate::blob::{BinaryType, Blob, BlobError, ElfClass, le16, le32, le64, spec_classify};
use crate::table::{Row, RowAction, Table, TableType, rows_content_equal, rows_match};
use crate::text;
use crate::elf::sections::{SectionEntry, section_cells, section_name_ok, spec_section32,
    spec_section64};
use crate::elf::symbols::{Symbol32, Symbol64, name_cell, spec_symbol32, spec_symbol64,
    symbol32_cells, symbol32_name_ok, symbol64_cells, symbol64_name_ok};

verus! {

/// Errors raised by the ELF decoder.
#[derive(Clone, Copy, Debug, PartialEq, Eq, Structural)]
pub enum ElfError {
    /// The buffer is not classified as ELF at all.
    NoElfBinary,
    /// The identification bytes are present but semantically invalid: the
    /// buffer is shorter than the minimum header for its class, or the class
    /// byte is unrecognized.
    CorruptHeader,
    /// No section of the requested symbol-table type exists.
    NoSymbolTable,
    /// A bounds violation reported by the buffer during a walk.
    BlobCorrupted(BlobError),
}

/// Data encoding named by byte 5 of the identification prefix. Only
/// little-endian field reads are implemented; the encoding is surfaced in
/// the header info so a big-endian input is flagged rather than silently
/// misread.
#[derive(Clone, Copy, Debug, PartialEq, Eq, Structural)]
pub enum DataEncoding {
    Little,
    Big,
    Unrecognized,
}

/// The data encoding named by a code byte: 1 is little-endian, 2 big-endian.
pub open spec fn encoding_of(b: int) -> DataEncoding {
    if b == 1 {
        DataEncoding::Little
    } else if b == 2 {
        DataEncoding::Big
    } else {
        DataEncoding::Unrecognized
    }
}

/// The identification fields of an ELF buffer, read once at construction
/// from the first header-sized region and immutable afterwards.
#[derive(Clone, Copy, Debug, PartialEq, Eq, Structural)]
pub struct ElfIdentity {
    pub class: ElfClass,
    pub data: DataEncoding,
    pub elf_type: u16,
    pub machine: u16,
    pub entry: u64,
    pub ph_offset: u64,
    pub ph_entry_size: u16,
    pub ph_count: u16,
    pub sh_offset: u64,
    pub sh_entry_size: u16,
    pub sh_count: u16,
    pub shstrndx: u16,
}

/// Whether an identity can be parsed: the buffer is classified as ELF with a
/// recognized class, and holds the whole header of that class.
pub open spec fn ident_parseable(s: Seq<u8>) -> bool {
    match spec_classify(s) {
        BinaryType::Elf(ElfClass::Class32) => s.len() >= 52,
        BinaryType::Elf(ElfClass::Class64) => s.len() >= 64,
        _ => false,
    }
}

/// The identity parsed from a buffer (meaningful under `ident_parseable`):
/// every field is the little-endian integer at its class's fixed position.
pub open spec fn spec_identity(s: Seq<u8>) -> ElfIdentity {
    if spec_classify(s) == BinaryType::Elf(ElfClass::Class64) {
        ElfIdentity {
            class: ElfClass::Class64,
            data: encoding_of(s[5] as int),
            elf_type: le16(s, 16) as u16,
            machine: le16(s, 18) as u16,
            entry: le64(s, 24) as u64,
            ph_offset: le64(s, 32) as u64,
            ph_entry_size: le16(s, 54) as u16,
            ph_count: le16(s, 56) as u16,
            sh_offset: le64(s, 40) as u64,
            sh_entry_size: le16(s, 58) as u16,
            sh_count: le16(s, 60) as u16,
            shstrndx: le16(s, 62) as u16,
        }
    } else {
        ElfIdentity {
            class: ElfClass::Class32,
            data: encoding_of(s[5] as int),
            elf_type: le16(s, 16) as u16,
            machine: le16(s, 18) as u16,
            entry: le32(s, 24) as u64,
            ph_offset: le32(s, 28) as u64,
            ph_entry_size: le16(s, 42) as u16,
            ph_count: le16(s, 44) as u16,
            sh_offset: le32(s, 32) as u64,
            sh_entry_size: le16(s, 46) as u16,
            sh_count: le16(s, 48) as u16,
            shstrndx: le16(s, 50) as u16,
        }
    }
}

/// Display text for an address class.
pub open spec fn class_text(c: ElfClass) -> Seq<char> {
    match c {
        ElfClass::Class32 => "ELF32"@,
        ElfClass::Class64 => "ELF64"@,
        ElfClass::Unrecognized => "unknown class"@,
    }
}

/// Display text for a data encoding.
pub open spec fn encoding_text(d: DataEncoding) -> Seq<char> {
    match d {
        DataEncoding::Little => "little endian"@,
        DataEncoding::Big => "big endian"@,
        DataEncoding::Unrecognized => "unknown encoding"@,
    }
}

/// The ordered label/value pairs describing an identity.
pub open spec fn spec_header_info(id: ElfIdentity) -> Seq<(Seq<char>, Seq<char>)> {
    seq![
        ("Class"@, class_text(id.class)),
        ("Data"@, encoding_text(id.data)),
        ("Type"@, text::hex_literal(id.elf_type as nat, 4)),
        ("Machine"@, text::hex_literal(id.machine as nat, 4)),
        ("Entry point"@, text::hex_literal(id.entry as nat, 16)),
        ("Program header offset"@, text::hex_literal(id.ph_offset as nat, 16)),
        ("Program header entry size"@, text::hex_literal(id.ph_entry_size as nat, 4)),
        ("Program header count"@, text::hex_literal(id.ph_count as nat, 4)),
        ("Section header offset"@, text::hex_literal(id.sh_offset as nat, 16)),
        ("Section header entry size"@, text::hex_literal(id.sh_entry_size as nat, 4)),
        ("Section header count"@, text::hex_literal(id.sh_count as nat, 4)),
        ("Section name table index"@, text::hex_literal(id.shstrndx as nat, 4)),
    ]
}

/// Size of one section-header record of each class: 64 bytes for 64-bit,
/// 40 for 32-bit.
pub open spec fn sh_rec_size(c: ElfClass) -> int {
    match c {
        ElfClass::Class64 => 64,
        ElfClass::Class32 => 40,
        ElfClass::Unrecognized => 0,
    }
}

/// Size of one symbol-table record of each class: 24 bytes for 64-bit, 16
/// for 32-bit.
pub open spec fn sym_rec_size(c: ElfClass) -> int {
    match c {
        ElfClass::Class64 => 24,
        ElfClass::Class32 => 16,
        ElfClass::Unrecognized => 0,
    }
}

/// File offset of the section-name string table: the `offset` field of the
/// section header at index `shstrndx`, or `OutOfBounds` when that field
/// cannot be read inside the buffer.
pub open spec fn spec_shstr_offset(s: Seq<u8>, id: ElfIdentity) -> Result<int, BlobError> {
    let hdr = id.sh_offset + id.shstrndx * sh_rec_size(id.class);
    if id.class == ElfClass::Class64 {
        if hdr + 32 <= s.len() {
            Ok(le64(s, hdr + 24))
        } else {
            Err(BlobError::OutOfBounds)
        }
    } else {
        if hdr + 20 <= s.len() {
            Ok(le32(s, hdr + 16))
        } else {
            Err(BlobError::OutOfBounds)
        }
    }
}

/// Display cells of the section record at `off`, or `OutOfBounds` when its
/// non-zero name offset has no terminated string in the table at `st`.
pub open spec fn spec_section_row(s: Seq<u8>, c: ElfClass, off: int, st: int) -> Result<
    Seq<Seq<char>>,
    BlobError,
> {
    if section_name_ok(s, off, st) {
        if c == ElfClass::Class64 {
            Ok(section_cells(spec_section64(s, off, st), 16))
        } else {
            Ok(section_cells(spec_section32(s, off, st), 8))
        }
    } else {
        Err(BlobError::OutOfBounds)
    }
}

/// Display cells of the `k` section records starting at `off`, in file
/// order; the first failing record's error, if any.
pub open spec fn spec_section_rows(s: Seq<u8>, c: ElfClass, off: int, st: int, k: nat) -> Result<
    Seq<Seq<Seq<char>>>,
    BlobError,
>
    decreases k,
{
    if k == 0 {
        Ok(Seq::empty())
    } else {
        match spec_section_row(s, c, off, st) {
            Err(e) => Err(e),
            Ok(row) => match spec_section_rows(s, c, off + sh_rec_size(c), st, (k - 1) as nat) {
                Err(e) => Err(e),
                Ok(rest) => Ok(seq![row] + rest),
            },
        }
    }
}

/// The whole section-header table of a buffer: an `OutOfBounds` error when
/// the declared table or the section-name string-table header runs past the
/// buffer end, otherwise the rows of every declared record.
pub open spec fn spec_section_table(s: Seq<u8>, id: ElfIdentity) -> Result<
    Seq<Seq<Seq<char>>>,
    BlobError,
> {
    if id.sh_offset + id.sh_count * sh_rec_size(id.class) > s.len() {
        Err(BlobError::OutOfBounds)
    } else {
        match spec_shstr_offset(s, id) {
            Err(e) => Err(e),
            Ok(st) => spec_section_rows(s, id.class, id.sh_offset as int, st, id.sh_count as nat),
        }
    }
}

/// Display cells of the symbol record at `off`, or `OutOfBounds` when its
/// non-zero name offset has no terminated string in the table at `st`.
pub open spec fn spec_symbol_row(s: Seq<u8>, c: ElfClass, off: int, st: int) -> Result<
    Seq<Seq<char>>,
    BlobError,
> {
    if c == ElfClass::Class64 {
        if symbol64_name_ok(s, off, st) {
            Ok(symbol64_cells(spec_symbol64(s, off, st)))
        } else {
            Err(BlobError::OutOfBounds)
        }
    } else {
        if symbol32_name_ok(s, off, st) {
            Ok(symbol32_cells(spec_symbol32(s, off, st)))
        } else {
            Err(BlobError::OutOfBounds)
        }
    }
}

/// Display cells of the `k` symbol records starting at `off`, in file
/// order; the first failing record's error, if any.
pub open spec fn spec_symbol_rows(s: Seq<u8>, c: ElfClass, off: int, st: int, k: nat) -> Result<
    Seq<Seq<Seq<char>>>,
    BlobError,
>
    decreases k,
{
    if k == 0 {
        Ok(Seq::empty())
    } else {
        match spec_symbol_row(s, c, off, st) {
            Err(e) => Err(e),
            Ok(row) => match spec_symbol_rows(s, c, off + sym_rec_size(c), st, (k - 1) as nat) {
                Err(e) => Err(e),
                Ok(rest) => Ok(seq![row] + rest),
            },
        }
    }
}

/// Index of the first section of type `t` among the `n` section headers,
/// searching from index `i`, whose header starts at `off`.
pub open spec fn spec_find_section(s: Seq<u8>, c: ElfClass, off: int, i: nat, n: nat, t: int)
    -> Option<int>
    decreases n - i,
{
    if i >= n {
        None
    } else if le32(s, off + 4) == t {
        Some(i as int)
    } else {
        spec_find_section(s, c, off + sh_rec_size(c), (i + 1) as nat, n, t)
    }
}

/// The fields of the section header at `off`, without name resolution.
pub open spec fn spec_section_fields(s: Seq<u8>, c: ElfClass, off: int) -> sections::SectionView {
    if c == ElfClass::Class64 {
        spec_section64(s, off, 0)
    } else {
        spec_section32(s, off, 0)
    }
}

/// The whole symbol table of type `t` (the full table for type 2, the
/// dynamic one for type 11): `OutOfBounds` when the section-header table,
/// the paired string-table header, or the declared symbol records run past
/// the buffer end; `NoSymbolTable` when no section has type `t`; otherwise
/// the rows of every declared record. The record count is the section's
/// declared size divided by the fixed record size of the class, and the
/// string table is the section named by the symbol section's `link` field.
pub open spec fn spec_symbols_table(s: Seq<u8>, id: ElfIdentity, t: int) -> Result<
    Seq<Seq<Seq<char>>>,
    ElfError,
> {
    let rec = sh_rec_size(id.class);
    if id.sh_offset + id.sh_count * rec > s.len() {
        Err(ElfError::BlobCorrupted(BlobError::OutOfBounds))
    } else {
        match spec_find_section(s, id.class, id.sh_offset as int, 0, id.sh_count as nat, t) {
            None => Err(ElfError::NoSymbolTable),
            Some(i) => {
                let sec = spec_section_fields(s, id.class, id.sh_offset + i * rec);
                if id.sh_offset + (sec.link + 1) * rec > s.len() {
                    Err(ElfError::BlobCorrupted(BlobError::OutOfBounds))
                } else {
                    let st = spec_section_fields(s, id.class, id.sh_offset + sec.link * rec).offset;
                    let nsyms = sec.size as int / sym_rec_size(id.class);
                    if sec.offset + nsyms * sym_rec_size(id.class) > s.len() {
                        Err(ElfError::BlobCorrupted(BlobError::OutOfBounds))
                    } else {
                        match spec_symbol_rows(
                            s,
                            id.class,
                            sec.offset as int,
                            st as int,
                            nsyms as nat,
                        ) {
                            Err(e) => Err(ElfError::BlobCorrupted(e)),
                            Ok(rows) => Ok(rows),
                        }
                    }
                }
            },
        }
    }
}

/// Column headers of a section-header table.
pub open spec fn section_table_headers() -> Seq<Seq<char>> {
    seq![
        "Name"@,
        "Type"@,
        "Flags"@,
        "Address"@,
        "Offset"@,
        "Size"@,
        "Link"@,
        "Info"@,
        "Align"@,
        "Entry size"@,
    ]
}

/// Column headers of a symbol table.
pub open spec fn symbol_table_headers() -> Seq<Seq<char>> {
    seq!["Type"@, "Binding"@, "Other"@, "Value"@, "Size"@, "Section"@, "Name"@]
}

/// Whether `pairs` carries exactly the label/value texts of `p`, in order.
pub open spec fn pairs_match(pairs: Seq<(String, String)>, p: Seq<(Seq<char>, Seq<char>)>) -> bool {
    &&& pairs.len() == p.len()
    &&& forall|i: int|
        0 <= i < pairs.len() ==> (#[trigger] pairs[i]).0@ == p[i].0 && pairs[i].1@ == p[i].1
}

/// Each row of a successful 64-bit symbol walk is the decoded record at its
/// own fixed offset, in file order.
proof fn lemma_symbol_rows64_indexed(s: Seq<u8>, off: int, st: int, k: nat)
    requires
        spec_symbol_rows(s, ElfClass::Class64, off, st, k) is Ok,
    ensures
        spec_symbol_rows(s, ElfClass::Class64, off, st, k)->Ok_0.len() == k,
        forall|j: int|
            0 <= j < k ==> #[trigger] spec_symbol_row(s, ElfClass::Class64, off + j * 24, st) is Ok
                && spec_symbol_rows(s, ElfClass::Class64, off, st, k)->Ok_0[j] == spec_symbol_row(
                s,
                ElfClass::Class64,
                off + j * 24,
                st,
            )->Ok_0,
    decreases k,
{
    if k > 0 {
        lemma_symbol_rows64_indexed(s, off + 24, st, (k - 1) as nat);
        let rows = spec_symbol_rows(s, ElfClass::Class64, off, st, k)->Ok_0;
        let rest = spec_symbol_rows(s, ElfClass::Class64, off + 24, st, (k - 1) as nat)->Ok_0;
        assert forall|j: int|
            0 <= j < k implies #[trigger] spec_symbol_row(s, ElfClass::Class64, off + j * 24, st)
            is Ok && rows[j] == spec_symbol_row(s, ElfClass::Class64, off + j * 24, st)->Ok_0 by {
            if j > 0 {
                assert(rows[j] == rest[j - 1]);
                assert(off + 24 + (j - 1) * 24 == off + j * 24);
            }
        }
    }
}

/// A well-formed 64-bit symbol table yields exactly one row per declared
/// record, in file order, and every record whose name offset is zero
/// displays `*unnamed*` in the name column.
#[verifier::rlimit(100)]
#[verifier::spinoff_prover]
pub proof fn lemma_symbols_table_shape(s: Seq<u8>, id: ElfIdentity, t: int)
    requires
        id.class == ElfClass::Class64,
        spec_symbols_table(s, id, t) is Ok,
    ensures
        ({
            let i = spec_find_section(
                s,
                id.class,
                id.sh_offset as int,
                0,
                id.sh_count as nat,
                t,
            )->Some_0;
            let sec = spec_section_fields(s, id.class, id.sh_offset + i * 64);
            let st = spec_section_fields(s, id.class, id.sh_offset + sec.link * 64).offset;
            let rows = spec_symbols_table(s, id, t)->Ok_0;
            &&& rows.len() == sec.size as int / 24
            &&& (forall|j: int|
                0 <= j < rows.len() ==> rows[j] == symbol64_cells(
                    #[trigger] spec_symbol64(s, sec.offset + j * 24, st as int),
                ))
            &&& (forall|j: int|
                0 <= j < rows.len() && #[trigger] le32(s, sec.offset + j * 24) == 0 ==> rows[j][6]
                    == "*unnamed*"@)
        }),
{
    assert(sh_rec_size(id.class) == 64);
    assert(sym_rec_size(id.class) == 24);
    let i = spec_find_section(s, id.class, id.sh_offset as int, 0, id.sh_count as nat, t)->Some_0;
    let sec = spec_section_fields(s, id.class, id.sh_offset + i * 64);
    let st = spec_section_fields(s, id.class, id.sh_offset + sec.link * 64).offset;
    let nsyms = sec.size as int / 24;
    let rows = spec_symbols_table(s, id, t)->Ok_0;
    assert(spec_symbol_rows(s, ElfClass::Class64, sec.offset as int, st as int, nsyms as nat) is Ok
        && rows == spec_symbol_rows(
        s,
        ElfClass::Class64,
        sec.offset as int,
        st as int,
        nsyms as nat,
    )->Ok_0);
    lemma_symbol_rows64_indexed(s, sec.offset as int, st as int, nsyms as nat);
    assert forall|j: int| 0 <= j < rows.len() implies rows[j] == symbol64_cells(
        #[trigger] spec_symbol64(s, sec.offset + j * 24, st as int),
    ) by {
        assert(spec_symbol_row(s, ElfClass::Class64, sec.offset as int + j * 24, st as int) is Ok);
    }
    assert forall|j: int|
        0 <= j < rows.len() && #[trigger] le32(s, sec.offset + j * 24) == 0 implies rows[j][6]
        == "*unnamed*"@ by {
        assert(spec_symbol64(s, sec.offset + j * 24, st as int).name is None);
        assert(symbol64_cells(spec_symbol64(s, sec.offset + j * 24, st as int))[6] == name_cell(
            spec_symbol64(s, sec.offset + j * 24, st as int).name,
        ));
    }
}

/// A section-header table whose declared extent passes the buffer end is
/// rejected whole with `OutOfBounds`, never decoded partially.
pub proof fn lemma_oversized_section_table_rejected(s: Seq<u8>, id: ElfIdentity)
    requires
        id.sh_offset + id.sh_count * sh_rec_size(id.class) > s.len(),
    ensures
        spec_section_table(s, id) == Err::<Seq<Seq<Seq<char>>>, BlobError>(BlobError::OutOfBounds),
{
}

/// The section-header table is a pure function of the unchanged buffer: any
/// two tables meeting `section_headers_table`'s contract over the same
/// bytes carry identical content, kind, headers, and row cells alike.
pub proof fn lemma_section_table_idempotent(cells: Seq<Seq<Seq<char>>>, t1: &Table, t2: &Table)
    requires
        t1.table_type == TableType::ElfSectionHeader,
        t2.table_type == TableType::ElfSectionHeader,
        t1.headline.deep_view() == section_table_headers(),
        t2.headline.deep_view() == section_table_headers(),
        rows_match(t1.rows@, cells),
        rows_match(t2.rows@, cells),
    ensures
        t1.table_type == t2.table_type,
        t1.headline.deep_view() == t2.headline.deep_view(),
        rows_content_equal(t1.rows@, t2.rows@),
{
    assert forall|j: int|
        0 <= j < t1.rows@.len() implies #[trigger] t1.rows@[j].cells() == t2.rows@[j].cells()
        && t1.rows@[j].action == t2.rows@[j].action by {
        assert(t1.rows@[j].cells() == cells[j]);
        assert(t2.rows@[j].cells() == cells[j]);
    }
}

/// ELF decoder over an immutable buffer: the identity is parsed once at
/// construction; every table is re-derived from the buffer on request, never
/// cached.
pub struct ElfBinary {
    blob: Blob,
    identity: ElfIdentity,
}

impl View for ElfBinary {
    type V = Seq<u8>;

    closed spec fn view(&self) -> Seq<u8> {
        self.blob@
    }
}

impl ElfBinary {
    /// The stored identity is exactly the one parsed from the buffer, whose
    /// class is recognized and whose header fits.
    #[verifier::type_invariant]
    spec fn inv(self) -> bool {
        ident_parseable(self.blob@) && self.identity == spec_identity(self.blob@)
    }

    /// Parses the identification header. Fails with `NoElfBinary` when the
    /// buffer is not classified as ELF at all, and with `CorruptHeader` when
    /// it is but its class byte is unrecognized or the buffer is shorter
    /// than the minimum header of its class.
    pub fn new(blob: Blob) -> (r: Result<ElfBinary, ElfError>)
        ensures
            ident_parseable(blob@) ==> r is Ok && r->Ok_0@ == blob@,
            spec_classify(blob@) is Elf && !ident_parseable(blob@) ==> r == Err::<
                ElfBinary,
                ElfError,
            >(ElfError::CorruptHeader),
            !(spec_classify(blob@) is Elf) ==> r == Err::<ElfBinary, ElfError>(
                ElfError::NoElfBinary,
            ),
    {
        match blob.bin_type() {
            BinaryType::Elf(ElfClass::Class64) => {
                if blob.len() < 64 {
                    return Err(ElfError::CorruptHeader);
                }
                let enc: u8 = blob.byte_at(5);
                let identity = ElfIdentity {
                    class: ElfClass::Class64,
                    data: if enc == 1 {
                        DataEncoding::Little
                    } else if enc == 2 {
                        DataEncoding::Big
                    } else {
                        DataEncoding::Unrecognized
                    },
                    elf_type: blob.u16_at(16),
                    machine: blob.u16_at(18),
                    entry: blob.u64_at(24),
                    ph_offset: blob.u64_at(32),
                    ph_entry_size: blob.u16_at(54),
                    ph_count: blob.u16_at(56),
                    sh_offset: blob.u64_at(40),
                    sh_entry_size: blob.u16_at(58),
                    sh_count: blob.u16_at(60),
                    shstrndx: blob.u16_at(62),
                };
                Ok(ElfBinary { blob, identity })
            },
            BinaryType::Elf(ElfClass::Class32) => {
                if blob.len() < 52 {
                    return Err(ElfError::CorruptHeader);
                }
                let enc: u8 = blob.byte_at(5);
                let identity = ElfIdentity {
                    class: ElfClass::Class32,
                    data: if enc == 1 {
                        DataEncoding::Little
                    } else if enc == 2 {
                        DataEncoding::Big
                    } else {
                        DataEncoding::Unrecognized
                    },
                    elf_type: blob.u16_at(16),
                    machine: blob.u16_at(18),
                    entry: blob.u32_at(24) as u64,
                    ph_offset: blob.u32_at(28) as u64,
                    ph_entry_size: blob.u16_at(42),
                    ph_count: blob.u16_at(44),
                    sh_offset: blob.u32_at(32) as u64,
                    sh_entry_size: blob.u16_at(46),
                    sh_count: blob.u16_at(48),
                    shstrndx: blob.u16_at(50),
                };
                Ok(ElfBinary { blob, identity })
            },
            BinaryType::Elf(ElfClass::Unrecognized) => Err(ElfError::CorruptHeader),
            _ => Err(ElfError::NoElfBinary),
        }
    }

    /// The ordered label/value pairs describing the identification fields.
    /// Always succeeds: the identity was parsed at construction.
    pub fn header_info(&self) -> (r: Vec<(String, String)>)
        ensures
            pairs_match(r@, spec_header_info(spec_identity(self@))),
    {
        proof {
            use_type_invariant(&*self);
        }
        let id = &self.identity;
        let mut info: Vec<(String, String)> = Vec::new();
        let class_string: String = match id.class {
            ElfClass::Class32 => String::from_str("ELF32"),
            ElfClass::Class64 => String::from_str("ELF64"),
            ElfClass::Unrecognized => String::from_str("unknown class"),
        };
        let data_string: String = match id.data {
            DataEncoding::Little => String::from_str("little endian"),
            DataEncoding::Big => String::from_str("big endian"),
            DataEncoding::Unrecognized => String::from_str("unknown encoding"),
        };
        info.push((String::from_str("Class"), class_string));
        info.push((String::from_str("Data"), data_string));
        info.push((String::from_str("Type"), text::hex_literal_string(id.elf_type as u64, 4)));
        info.push((String::from_str("Machine"), text::hex_literal_string(id.machine as u64, 4)));
        info.push((String::from_str("Entry point"), text::hex_literal_string(id.entry, 16)));
        info.push(
            (String::from_str("Program header offset"), text::hex_literal_string(id.ph_offset, 16)),
        );
        info.push(
            (
                String::from_str("Program header entry size"),
                text::hex_literal_string(id.ph_entry_size as u64, 4),
            ),
        );
        info.push(
            (
                String::from_str("Program header count"),
                text::hex_literal_string(id.ph_count as u64, 4),
            ),
        );
        info.push(
            (String::from_str("Section header offset"), text::hex_literal_string(id.sh_offset, 16)),
        );
        info.push(
            (
                String::from_str("Section header entry size"),
                text::hex_literal_string(id.sh_entry_size as u64, 4),
            ),
        );
        info.push(
            (
                String::from_str("Section header count"),
                text::hex_literal_string(id.sh_count as u64, 4),
            ),
        );
        info.push(
            (
                String::from_str("Section name table index"),
                text::hex_literal_string(id.shstrndx as u64, 4),
            ),
        );
        proof {
            assert(pairs_match(info@, spec_header_info(spec_identity(self@))));
        }
        info
    }

    /// The section-header table: one row per declared section in file order,
    /// with names resolved through the section-name string table. Fails with
    /// an `OutOfBounds` error exactly when the declared table, the name
    /// string-table header, or a name string runs past the buffer end; a
    /// crafted count never yields a partial table.
    pub fn section_headers_table(&self) -> (r: Result<Table, ElfError>)
        ensures
            match spec_section_table(self@, spec_identity(self@)) {
                Ok(rows) => {
                    &&& r is Ok
                    &&& r->Ok_0.table_type == TableType::ElfSectionHeader
                    &&& r->Ok_0.headline.deep_view() == section_table_headers()
                    &&& rows_match(r->Ok_0.rows@, rows)
                },
                Err(e) => r == Err::<Table, ElfError>(ElfError::BlobCorrupted(e)),
            },
    {
        proof {
            use_type_invariant(&*self);
        }
        let id = &self.identity;
        let len: usize = self.blob.len();
        let rec: u64 = match id.class {
            ElfClass::Class64 => 64,
            _ => 40,
        };
        let total: u128 = id.sh_offset as u128 + (id.sh_count as u64 * rec) as u128;
        if total > len as u128 {
            return Err(ElfError::BlobCorrupted(BlobError::OutOfBounds));
        }
        let shstr_hdr: u128 = id.sh_offset as u128 + (id.shstrndx as u64 * rec) as u128;
        let st: u64 = match id.class {
            ElfClass::Class64 => {
                if shstr_hdr + 32 > len as u128 {
                    return Err(ElfError::BlobCorrupted(BlobError::OutOfBounds));
                }
                self.blob.u64_at(shstr_hdr as usize + 24)
            },
            _ => {
                if shstr_hdr + 20 > len as u128 {
                    return Err(ElfError::BlobCorrupted(BlobError::OutOfBounds));
                }
                self.blob.u32_at(shstr_hdr as usize + 16) as u64
            },
        };
        let rows_result: Result<Vec<Row>, BlobError> = match id.class {
            ElfClass::Class64 => section_rows64(&self.blob, id.sh_offset, st, id.sh_count as u64),
            _ => section_rows32(&self.blob, id.sh_offset, st, id.sh_count as u64),
        };
        match rows_result {
            Ok(rows) => {
                let headers: [&str; 10] = [
                    "Name",
                    "Type",
                    "Flags",
                    "Address",
                    "Offset",
                    "Size",
                    "Link",
                    "Info",
                    "Align",
                    "Entry size",
                ];
                let table = Table::new(TableType::ElfSectionHeader, headers.as_slice(), rows);
                proof {
                    assert(table.headline.deep_view() =~~= section_table_headers());
                }
                Ok(table)
            },
            Err(e) => Err(ElfError::BlobCorrupted(e)),
        }
    }

    /// The full symbol table, located by section type rather than name.
    /// Fails with `NoSymbolTable` when no section has the symbol-table type,
    /// and with an `OutOfBounds` error exactly when a table, header, or name
    /// read would pass the buffer end.
    pub fn symbols_table(&self) -> (r: Result<Table, ElfError>)
        ensures
            match spec_symbols_table(self@, spec_identity(self@), 2) {
                Ok(rows) => {
                    &&& r is Ok
                    &&& r->Ok_0.table_type == TableType::ElfSymbols
                    &&& r->Ok_0.headline.deep_view() == symbol_table_headers()
                    &&& rows_match(r->Ok_0.rows@, rows)
                },
                Err(e) => r == Err::<Table, ElfError>(e),
            },
    {
        self.symbol_table_of_type(2, TableType::ElfSymbols)
    }

    /// The dynamic symbol table, located by section type rather than name;
    /// failure conditions mirror `symbols_table`.
    pub fn dyn_symbols_table(&self) -> (r: Result<Table, ElfError>)
        ensures
            match spec_symbols_table(self@, spec_identity(self@), 11) {
                Ok(rows) => {
                    &&& r is Ok
                    &&& r->Ok_0.table_type == TableType::ElfDynamicSymbols
                    &&& r->Ok_0.headline.deep_view() == symbol_table_headers()
                    &&& rows_match(r->Ok_0.rows@, rows)
                },
                Err(e) => r == Err::<Table, ElfError>(e),
            },
    {
        self.symbol_table_of_type(11, TableType::ElfDynamicSymbols)
    }

    /// Shared walk for both symbol tables: find the first section of the
    /// requested type, pair it with the string table its `link` field names,
    /// and decode one row per record.
    fn symbol_table_of_type(&self, t: u32, table_type: TableType) -> (r: Result<Table, ElfError>)
        ensures
            match spec_symbols_table(self@, spec_identity(self@), t as int) {
                Ok(rows) => {
                    &&& r is Ok
                    &&& r->Ok_0.table_type == table_type
                    &&& r->Ok_0.headline.deep_view() == symbol_table_headers()
                    &&& rows_match(r->Ok_0.rows@, rows)
                },
                Err(e) => r == Err::<Table, ElfError>(e),
            },
    {
        proof {
            use_type_invariant(&*self);
        }
        match self.identity.class {
            ElfClass::Class64 => self.symbol_table_of_type64(t, table_type),
            _ => self.symbol_table_of_type32(t, table_type),
        }
    }

    /// The symbol-table walk specialized to the 64-bit layout.
    fn symbol_table_of_type64(&self, t: u32, table_type: TableType) -> (r: Result<
        Table,
        ElfError,
    >)
        requires
            spec_identity(self@).class == ElfClass::Class64,
        ensures
            match spec_symbols_table(self@, spec_identity(self@), t as int) {
                Ok(rows) => {
                    &&& r is Ok
                    &&& r->Ok_0.table_type == table_type
                    &&& r->Ok_0.headline.deep_view() == symbol_table_headers()
                    &&& rows_match(r->Ok_0.rows@, rows)
                },
                Err(e) => r == Err::<Table, ElfError>(e),
            },
    {
        proof {
            use_type_invariant(&*self);
        }
        let ghost s = self@;
        let ghost id_spec = spec_identity(self@);
        let id = &self.identity;
        let len: usize = self.blob.len();
        let total: u128 = id.sh_offset as u128 + (id.sh_count as u64 * 64) as u128;
        if total > len as u128 {
            return Err(ElfError::BlobCorrupted(BlobError::OutOfBounds));
        }
        let base: usize = id.sh_offset as usize;
        let n: usize = id.sh_count as usize;
        let mut i: usize = 0;
        let mut hdr: usize = base;
        while i < n
            invariant
                0 <= i <= n,
                self.inv(),
                s == self@,
                id_spec == spec_identity(s),
                id_spec.class == ElfClass::Class64,
                base == id_spec.sh_offset,
                n == id_spec.sh_count,
                len == s.len(),
                hdr == base + i * 64,
                base + n * 64 <= len,
                spec_find_section(s, id_spec.class, base as int, 0, n as nat, t as int)
                    == spec_find_section(s, id_spec.class, hdr as int, i as nat, n as nat, t as int),
            decreases n - i,
        {
            let ty: u32 = self.blob.u32_at(hdr + 4);
            if ty == t {
                return self.symbol_table_found64(i, hdr, table_type, t);
            }
            i = i + 1;
            hdr = hdr + 64;
        }
        Err(ElfError::NoSymbolTable)
    }

    /// Decodes the 64-bit symbol table held by the section whose header
    /// starts at `hdr`, already found to be the first of the requested type.
    #[verifier::rlimit(100)]
    #[verifier::spinoff_prover]
    fn symbol_table_found64(&self, i: usize, hdr: usize, table_type: TableType, t: u32) -> (r:
        Result<Table, ElfError>)
        requires
            spec_identity(self@).class == ElfClass::Class64,
            spec_identity(self@).sh_offset + spec_identity(self@).sh_count * 64 <= self@.len(),
            i < spec_identity(self@).sh_count,
            hdr == spec_identity(self@).sh_offset + i * 64,
            spec_find_section(
                self@,
                ElfClass::Class64,
                spec_identity(self@).sh_offset as int,
                0,
                spec_identity(self@).sh_count as nat,
                t as int,
            ) == Some(i as int),
        ensures
            match spec_symbols_table(self@, spec_identity(self@), t as int) {
                Ok(rows) => {
                    &&& r is Ok
                    &&& r->Ok_0.table_type == table_type
                    &&& r->Ok_0.headline.deep_view() == symbol_table_headers()
                    &&& rows_match(r->Ok_0.rows@, rows)
                },
                Err(e) => r == Err::<Table, ElfError>(e),
            },
    {
        proof {
            use_type_invariant(&*self);
        }
        let ghost s = self@;
        let ghost id_spec = spec_identity(self@);
        let id = &self.identity;
        let len: usize = self.blob.len();
        let sym_off: u64 = self.blob.u64_at(hdr + 24);
        let sym_size: u64 = self.blob.u64_at(hdr + 32);
        let link: u32 = self.blob.u32_at(hdr + 40);
        let ghost sec = spec_section_fields(s, ElfClass::Class64, hdr as int);
        proof {
            assert(sym_off == sec.offset && sym_size == sec.size && link == sec.link);
        }
        let link_end: u128 = id.sh_offset as u128 + (link as u64 + 1) as u128 * 64;
        if link_end > len as u128 {
            return Err(ElfError::BlobCorrupted(BlobError::OutOfBounds));
        }
        proof {
            vstd::arithmetic::mul::lemma_mul_inequality(link as int, link as int + 1, 64);
        }
        let link_hdr: usize = id.sh_offset as usize + (link as usize) * 64;
        let st: u64 = self.blob.u64_at(link_hdr + 24);
        proof {
            assert(st == spec_section_fields(s, ElfClass::Class64, id_spec.sh_offset + sec.link * 64).offset);
        }
        let nsyms: u64 = sym_size / 24;
        proof {
            vstd::arithmetic::div_mod::lemma_fundamental_div_mod(sym_size as int, 24);
        }
        let sym_total: u128 = sym_off as u128 + (nsyms * 24) as u128;
        if sym_total > len as u128 {
            return Err(ElfError::BlobCorrupted(BlobError::OutOfBounds));
        }
        match symbol_rows64(&self.blob, sym_off, st, nsyms) {
            Ok(rows) => {
                let headers: [&str; 7] = [
                    "Type",
                    "Binding",
                    "Other",
                    "Value",
                    "Size",
                    "Section",
                    "Name",
                ];
                let table = Table::new(table_type, headers.as_slice(), rows);
                proof {
                    assert(table.headline.deep_view() =~~= symbol_table_headers());
                }
                Ok(table)
            },
            Err(e) => Err(ElfError::BlobCorrupted(e)),
        }
    }

    /// The symbol-table walk specialized to the 32-bit layout.
    fn symbol_table_of_type32(&self, t: u32, table_type: TableType) -> (r: Result<
        Table,
        ElfError,
    >)
        requires
            spec_identity(self@).class == ElfClass::Class32,
        ensures
            match spec_symbols_table(self@, spec_identity(self@), t as int) {
                Ok(rows) => {
                    &&& r is Ok
                    &&& r->Ok_0.table_type == table_type
                    &&& r->Ok_0.headline.deep_view() == symbol_table_headers()
                    &&& rows_match(r->Ok_0.rows@, rows)
                },
                Err(e) => r == Err::<Table, ElfError>(e),
            },
    {
        proof {
            use_type_invariant(&*self);
        }
        let ghost s = self@;
        let ghost id_spec = spec_identity(self@);
        let id = &self.identity;
        let len: usize = self.blob.len();
        let total: u128 = id.sh_offset as u128 + (id.sh_count as u64 * 40) as u128;
        if total > len as u128 {
            return Err(ElfError::BlobCorrupted(BlobError::OutOfBounds));
        }
        let base: usize = id.sh_offset as usize;
        let n: usize = id.sh_count as usize;
        let mut i: usize = 0;
        let mut hdr: usize = base;
        while i < n
            invariant
                0 <= i <= n,
                self.inv(),
                s == self@,
                id_spec == spec_identity(s),
                id_spec.class == ElfClass::Class32,
                base == id_spec.sh_offset,
                n == id_spec.sh_count,
                len == s.len(),
                hdr == base + i * 40,
                base + n * 40 <= len,
                spec_find_section(s, id_spec.class, base as int, 0, n as nat, t as int)
                    == spec_find_section(s, id_spec.class, hdr as int, i as nat, n as nat, t as int),
            decreases n - i,
        {
            let ty: u32 = self.blob.u32_at(hdr + 4);
            if ty == t {
                return self.symbol_table_found32(i, hdr, table_type, t);
            }
            i = i + 1;
            hdr = hdr + 40;
        }
        Err(ElfError::NoSymbolTable)
    }

    /// Decodes the 32-bit symbol table held by the section whose header
    /// starts at `hdr`, already found to be the first of the requested type.
    #[verifier::rlimit(100)]
    #[verifier::spinoff_prover]
    fn symbol_table_found32(&self, i: usize, hdr: usize, table_type: TableType, t: u32) -> (r:
        Result<Table, ElfError>)
        requires
            spec_identity(self@).class == ElfClass::Class32,
            spec_identity(self@).sh_offset + spec_identity(self@).sh_count * 40 <= self@.len(),
            i < spec_identity(self@).sh_count,
            hdr == spec_identity(self@).sh_offset + i * 40,
            spec_find_section(
                self@,
                ElfClass::Class32,
                spec_identity(self@).sh_offset as int,
                0,
                spec_identity(self@).sh_count as nat,
                t as int,
            ) == Some(i as int),
        ensures
            match spec_symbols_table(self@, spec_identity(self@), t as int) {
                Ok(rows) => {
                    &&& r is Ok
                    &&& r->Ok_0.table_type == table_type
                    &&& r->Ok_0.headline.deep_view() == symbol_table_headers()
                    &&& rows_match(r->Ok_0.rows@, rows)
                },
                Err(e) => r == Err::<Table, ElfError>(e),
            },
    {
        proof {
            use_type_invariant(&*self);
        }
        let ghost s = self@;
        let ghost id_spec = spec_identity(self@);
        let id = &self.identity;
        let len: usize = self.blob.len();
        let sym_off: u64 = self.blob.u32_at(hdr + 16) as u64;
        let sym_size: u64 = self.blob.u32_at(hdr + 20) as u64;
        let link: u32 = self.blob.u32_at(hdr + 24);
        let ghost sec = spec_section_fields(s, ElfClass::Class32, hdr as int);
        proof {
            assert(sym_off == sec.offset && sym_size == sec.size && link == sec.link);
        }
        let link_end: u128 = id.sh_offset as u128 + (link as u64 + 1) as u128 * 40;
        if link_end > len as u128 {
            return Err(ElfError::BlobCorrupted(BlobError::OutOfBounds));
        }
        proof {
            vstd::arithmetic::mul::lemma_mul_inequality(link as int, link as int + 1, 40);
        }
        let link_hdr: usize = id.sh_offset as usize + (link as usize) * 40;
        let st: u64 = self.blob.u32_at(link_hdr + 16) as u64;
        proof {
            assert(st == spec_section_fields(s, ElfClass::Class32, id_spec.sh_offset + sec.link * 40).offset);
        }
        let nsyms: u64 = sym_size / 16;
        proof {
            vstd::arithmetic::div_mod::lemma_fundamental_div_mod(sym_size as int, 16);
        }
        let sym_total: u128 = sym_off as u128 + (nsyms * 16) as u128;
        if sym_total > len as u128 {
            return Err(ElfError::BlobCorrupted(BlobError::OutOfBounds));
        }
        match symbol_rows32(&self.blob, sym_off, st, nsyms) {
            Ok(rows) => {
                let headers: [&str; 7] = [
                    "Type",
                    "Binding",
                    "Other",
                    "Value",
                    "Size",
                    "Section",
                    "Name",
                ];
                let table = Table::new(table_type, headers.as_slice(), rows);
                proof {
                    assert(table.headline.deep_view() =~~= symbol_table_headers());
                }
                Ok(table)
            },
            Err(e) => Err(ElfError::BlobCorrupted(e)),
        }
    }
}

/// Decodes and formats the 64-bit section record at `off` as one table row.
fn section_row64(blob: &Blob, off: usize, st: u64) -> (r: Result<Row, BlobError>)
    requires
        off + 64 <= blob@.len(),
    ensures
        match spec_section_row(blob@, ElfClass::Class64, off as int, st as int) {
            Ok(cells) => r is Ok && r->Ok_0.action == RowAction::Inert && r->Ok_0.cells() == cells,
            Err(e) => r == Err::<Row, BlobError>(e),
        },
{
    match SectionEntry::decode64(blob, off, st) {
        Ok(entry) => {
            let cells = entry.row_cells(16);
            Ok(Row { action: RowAction::Inert, content: cells })
        },
        Err(e) => Err(e),
    }
}

/// Decodes and formats the 32-bit section record at `off` as one table row.
fn section_row32(blob: &Blob, off: usize, st: u64) -> (r: Result<Row, BlobError>)
    requires
        off + 40 <= blob@.len(),
    ensures
        match spec_section_row(blob@, ElfClass::Class32, off as int, st as int) {
            Ok(cells) => r is Ok && r->Ok_0.action == RowAction::Inert && r->Ok_0.cells() == cells,
            Err(e) => r == Err::<Row, BlobError>(e),
        },
{
    match SectionEntry::decode32(blob, off, st) {
        Ok(entry) => {
            let cells = entry.row_cells(8);
            Ok(Row { action: RowAction::Inert, content: cells })
        },
        Err(e) => Err(e),
    }
}

/// Decodes and formats the 64-bit symbol record at `off` as one table row.
fn symbol_row64(blob: &Blob, off: usize, st: u64) -> (r: Result<Row, BlobError>)
    requires
        off + 24 <= blob@.len(),
    ensures
        match spec_symbol_row(blob@, ElfClass::Class64, off as int, st as int) {
            Ok(cells) => r is Ok && r->Ok_0.action == RowAction::Inert && r->Ok_0.cells() == cells,
            Err(e) => r == Err::<Row, BlobError>(e),
        },
{
    match Symbol64::decode(blob, off, st) {
        Ok(entry) => {
            let cells = entry.row_cells();
            Ok(Row { action: RowAction::Inert, content: cells })
        },
        Err(e) => Err(e),
    }
}

/// Decodes and formats the 32-bit symbol record at `off` as one table row.
fn symbol_row32(blob: &Blob, off: usize, st: u64) -> (r: Result<Row, BlobError>)
    requires
        off + 16 <= blob@.len(),
    ensures
        match spec_symbol_row(blob@, ElfClass::Class32, off as int, st as int) {
            Ok(cells) => r is Ok && r->Ok_0.action == RowAction::Inert && r->Ok_0.cells() == cells,
            Err(e) => r == Err::<Row, BlobError>(e),
        },
{
    match Symbol32::decode(blob, off, st) {
        Ok(entry) => {
            let cells = entry.row_cells();
            Ok(Row { action: RowAction::Inert, content: cells })
        },
        Err(e) => Err(e),
    }
}

/// Walks the 64-byte 64-bit section-header records of a bounded table, decoding one row per
/// record.
#[verifier::spinoff_prover]
fn section_rows64(blob: &Blob, base: u64, st: u64, n: u64) -> (r: Result<Vec<Row>, BlobError>)
    requires
        base + n * 64 <= blob@.len(),
    ensures
        match spec_section_rows(blob@, ElfClass::Class64, base as int, st as int, n as nat) {
            Ok(rows) => r is Ok && rows_match(r->Ok_0@, rows),
            Err(e) => r == Err::<Vec<Row>, BlobError>(e),
        },
{
    let ghost s = blob@;
    let ghost full = spec_section_rows(blob@, ElfClass::Class64, base as int, st as int, n as nat);
    let len: usize = blob.len();
    proof {
        assert(base <= len && n <= len);
    }
    let mut rows: Vec<Row> = Vec::new();
    let ghost mut acc: Seq<Seq<Seq<char>>> = Seq::empty();
    let n_us: usize = n as usize;
    let mut off: usize = base as usize;
    let mut i: usize = 0;
    while i < n_us
        invariant
            0 <= i <= n_us,
            s == blob@,
            n_us == n,
            len == s.len(),
            off + (n_us - i) * 64 <= len,
            full == spec_section_rows(s, ElfClass::Class64, base as int, st as int, n as nat),
            rows@.len() == acc.len(),
            rows_match(rows@, acc),
            match spec_section_rows(s, ElfClass::Class64, off as int, st as int, (n_us - i) as nat) {
                Ok(rest) => full == Ok::<Seq<Seq<Seq<char>>>, BlobError>(acc + rest),
                Err(e) => full == Err::<Seq<Seq<Seq<char>>>, BlobError>(e),
            },
        decreases n_us - i,
    {
        match section_row64(blob, off, st) {
            Ok(row) => {
                proof {
                    let rest_r = spec_section_rows(
                        s,
                        ElfClass::Class64,
                        off + 64,
                        st as int,
                        (n_us - i - 1) as nat,
                    );
                    if rest_r is Ok {
                        assert(acc + (seq![row.cells()] + rest_r->Ok_0) =~~= acc.push(row.cells())
                            + rest_r->Ok_0);
                    }
                    acc = acc.push(row.cells());
                }
                rows.push(row);
                i = i + 1;
                off = off + 64;
            },
            Err(e) => {
                return Err(e);
            },
        }
    }
    proof {
        assert(acc + Seq::<Seq<Seq<char>>>::empty() =~= acc);
    }
    Ok(rows)
}

/// Walks the 40-byte 32-bit section-header records of a bounded table, decoding one row per
/// record.
#[verifier::spinoff_prover]
fn section_rows32(blob: &Blob, base: u64, st: u64, n: u64) -> (r: Result<Vec<Row>, BlobError>)
    requires
        base + n * 40 <= blob@.len(),
    ensures
        match spec_section_rows(blob@, ElfClass::Class32, base as int, st as int, n as nat) {
            Ok(rows) => r is Ok && rows_match(r->Ok_0@, rows),
            Err(e) => r == Err::<Vec<Row>, BlobError>(e),
        },
{
    let ghost s = blob@;
    let ghost full = spec_section_rows(blob@, ElfClass::Class32, base as int, st as int, n as nat);
    let len: usize = blob.len();
    proof {
        assert(base <= len && n <= len);
    }
    let mut rows: Vec<Row> = Vec::new();
    let ghost mut acc: Seq<Seq<Seq<char>>> = Seq::empty();
    let n_us: usize = n as usize;
    let mut off: usize = base as usize;
    let mut i: usize = 0;
    while i < n_us
        invariant
            0 <= i <= n_us,
            s == blob@,
            n_us == n,
            len == s.len(),
            off + (n_us - i) * 40 <= len,
            full == spec_section_rows(s, ElfClass::Class32, base as int, st as int, n as nat),
            rows@.len() == acc.len(),
            rows_match(rows@, acc),
            match spec_section_rows(s, ElfClass::Class32, off as int, st as int, (n_us - i) as nat) {
                Ok(rest) => full == Ok::<Seq<Seq<Seq<char>>>, BlobError>(acc + rest),
                Err(e) => full == Err::<Seq<Seq<Seq<char>>>, BlobError>(e),
            },
        decreases n_us - i,
    {
        match section_row32(blob, off, st) {
            Ok(row) => {
                proof {
                    let rest_r = spec_section_rows(
                        s,
                        ElfClass::Class32,
                        off + 40,
                        st as int,
                        (n_us - i - 1) as nat,
                    );
                    if rest_r is Ok {
                        assert(acc + (seq![row.cells()] + rest_r->Ok_0) =~~= acc.push(row.cells())
                            + rest_r->Ok_0);
                    }
                    acc = acc.push(row.cells());
                }
                rows.push(row);
                i = i + 1;
                off = off + 40;
            },
            Err(e) => {
                return Err(e);
            },
        }
    }
    proof {
        assert(acc + Seq::<Seq<Seq<char>>>::empty() =~= acc);
    }
    Ok(rows)
}

/// Walks the 24-byte 64-bit symbol records of a bounded table, decoding one row per
/// record.
#[verifier::spinoff_prover]
fn symbol_rows64(blob: &Blob, base: u64, st: u64, n: u64) -> (r: Result<Vec<Row>, BlobError>)
    requires
        base + n * 24 <= blob@.len(),
    ensures
        match spec_symbol_rows(blob@, ElfClass::Class64, base as int, st as int, n as nat) {
            Ok(rows) => r is Ok && rows_match(r->Ok_0@, rows),
            Err(e) => r == Err::<Vec<Row>, BlobError>(e),
        },
{
    let ghost s = blob@;
    let ghost full = spec_symbol_rows(blob@, ElfClass::Class64, base as int, st as int, n as nat);
    let len: usize = blob.len();
    proof {
        assert(base <= len && n <= len);
    }
    let mut rows: Vec<Row> = Vec::new();
    let ghost mut acc: Seq<Seq<Seq<char>>> = Seq::empty();
    let n_us: usize = n as usize;
    let mut off: usize = base as usize;
    let mut i: usize = 0;
    while i < n_us
        invariant
            0 <= i <= n_us,
            s == blob@,
            n_us == n,
            len == s.len(),
            off + (n_us - i) * 24 <= len,
            full == spec_symbol_rows(s, ElfClass::Class64, base as int, st as int, n as nat),
            rows@.len() == acc.len(),
            rows_match(rows@, acc),
            match spec_symbol_rows(s, ElfClass::Class64, off as int, st as int, (n_us - i) as nat) {
                Ok(rest) => full == Ok::<Seq<Seq<Seq<char>>>, BlobError>(acc + rest),
                Err(e) => full == Err::<Seq<Seq<Seq<char>>>, BlobError>(e),
            },
        decreases n_us - i,
    {
        match symbol_row64(blob, off, st) {
            Ok(row) => {
                proof {
                    let rest_r = spec_symbol_rows(
                        s,
                        ElfClass::Class64,
                        off + 24,
                        st as int,
                        (n_us - i - 1) as nat,
                    );
                    if rest_r is Ok {
                        assert(acc + (seq![row.cells()] + rest_r->Ok_0) =~~= acc.push(row.cells())
                            + rest_r->Ok_0);
                    }
                    acc = acc.push(row.cells());
                }
                rows.push(row);
                i = i + 1;
                off = off + 24;
            },
            Err(e) => {
                return Err(e);
            },
        }
    }
    proof {
        assert(acc + Seq::<Seq<Seq<char>>>::empty() =~= acc);
    }
    Ok(rows)
}

/// Walks the 16-byte 32-bit symbol records of a bounded table, decoding one row per
/// record.
#[verifier::spinoff_prover]
fn symbol_rows32(blob: &Blob, base: u64, st: u64, n: u64) -> (r: Result<Vec<Row>, BlobError>)
    requires
        base + n * 16 <= blob@.len(),
    ensures
        match spec_symbol_rows(blob@, ElfClass::Class32, base as int, st as int, n as nat) {
            Ok(rows) => r is Ok && rows_match(r->Ok_0@, rows),
            Err(e) => r == Err::<Vec<Row>, BlobError>(e),
        },
{
    let ghost s = blob@;
    let ghost full = spec_symbol_rows(blob@, ElfClass::Class32, base as int, st as int, n as nat);
    let len: usize = blob.len();
    proof {
        assert(base <= len && n <= len);
    }
    let mut rows: Vec<Row> = Vec::new();
    let ghost mut acc: Seq<Seq<Seq<char>>> = Seq::empty();
    let n_us: usize = n as usize;
    let mut off: usize = base as usize;
    let mut i: usize = 0;
    while i < n_us
        invariant
            0 <= i <= n_us,
            s == blob@,
            n_us == n,
            len == s.len(),
            off + (n_us - i) * 16 <= len,
            full == spec_symbol_rows(s, ElfClass::Class32, base as int, st as int, n as nat),
            rows@.len() == acc.len(),
            rows_match(rows@, acc),
            match spec_symbol_rows(s, ElfClass::Class32, off as int, st as int, (n_us - i) as nat) {
                Ok(rest) => full == Ok::<Seq<Seq<Seq<char>>>, BlobError>(acc + rest),
                Err(e) => full == Err::<Seq<Seq<Seq<char>>>, BlobError>(e),
            },
        decreases n_us - i,
    {
        match symbol_row32(blob, off, st) {
            Ok(row) => {
                proof {
                    let rest_r = spec_symbol_rows(
                        s,
                        ElfClass::Class32,
                        off + 16,
                        st as int,
                        (n_us - i - 1) as nat,
                    );
                    if rest_r is Ok {
                        assert(acc + (seq![row.cells()] + rest_r->Ok_0) =~~= acc.push(row.cells())
                            + rest_r->Ok_0);
                    }
                    acc = acc.push(row.cells());
                }
                rows.push(row);
                i = i + 1;
                off = off + 16;
            },
            Err(e) => {
                return Err(e);
            },
        }
    }
    proof {
        assert(acc + Seq::<Seq<Seq<char>>>::empty() =~= acc);
    }
    Ok(rows)
}

} // verus!
