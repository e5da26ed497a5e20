//! Per-record decoder for ELF section-header table rows, in the 32-bit and
//! 64-bit layouts.

use vstd::prelude::*;

use crate::blob::{Blob, BlobError, cstring_chars, has_nul, le32, le64};
use crate::elf::symbols::name_cell_string;
use crate::elf::symbols::name_cell;
use crate::text;

verus! {

/// Mathematical content of a decoded section-header record, with the
/// narrower 32-bit fields widened.
pub struct SectionView {
    pub name: Option<Seq<char>>,
    pub section_type: u32,
    pub flags: u64,
    pub addr: u64,
    pub offset: u64,
    pub size: u64,
    pub link: u32,
    pub info: u32,
    pub addralign: u64,
    pub entsize: u64,
}

/// Decoded content of the 64-byte 64-bit section-header record at `off`,
/// its name resolved against the section-name string table at `st`. A zero
/// name offset means the name is absent and is never dereferenced.
pub open spec fn spec_section64(s: Seq<u8>, off: int, st: int) -> SectionView {
    SectionView {
        name: if le32(s, off) == 0 {
            None
        } else {
            Some(cstring_chars(s, st + le32(s, off)))
        },
        section_type: le32(s, off + 4) as u32,
        flags: le64(s, off + 8) as u64,
        addr: le64(s, off + 16) as u64,
        offset: le64(s, off + 24) as u64,
        size: le64(s, off + 32) as u64,
        link: le32(s, off + 40) as u32,
        info: le32(s, off + 44) as u32,
        addralign: le64(s, off + 48) as u64,
        entsize: le64(s, off + 56) as u64,
    }
}

/// Decoded content of the 40-byte 32-bit section-header record at `off`.
pub open spec fn spec_section32(s: Seq<u8>, off: int, st: int) -> SectionView {
    SectionView {
        name: if le32(s, off) == 0 {
            None
        } else {
            Some(cstring_chars(s, st + le32(s, off)))
        },
        section_type: le32(s, off + 4) as u32,
        flags: le32(s, off + 8) as u64,
        addr: le32(s, off + 12) as u64,
        offset: le32(s, off + 16) as u64,
        size: le32(s, off + 20) as u64,
        link: le32(s, off + 24) as u32,
        info: le32(s, off + 28) as u32,
        addralign: le32(s, off + 32) as u64,
        entsize: le32(s, off + 36) as u64,
    }
}

/// Whether the name of the section record at `off` resolves: absent, or
/// terminated inside the buffer.
pub open spec fn section_name_ok(s: Seq<u8>, off: int, st: int) -> bool {
    le32(s, off) == 0 || has_nul(s, st + le32(s, off))
}

/// One row of a section-header table as its display cells: name, type,
/// flags, address, offset, size, link, info, alignment, entry size. The
/// address-sized fields render `w` hexadecimal digits wide.
pub open spec fn section_cells(v: SectionView, w: nat) -> Seq<Seq<char>> {
    seq![
        name_cell(v.name),
        text::hex_literal(v.section_type as nat, 8),
        text::hex_literal(v.flags as nat, w),
        text::hex_literal(v.addr as nat, w),
        text::hex_literal(v.offset as nat, w),
        text::hex_literal(v.size as nat, w),
        text::hex_literal(v.link as nat, 8),
        text::hex_literal(v.info as nat, 8),
        text::hex_literal(v.addralign as nat, w),
        text::hex_literal(v.entsize as nat, w),
    ]
}

/// One decoded section-header record; 32-bit fields are widened so both
/// layouts share a shape.
pub struct SectionEntry {
    /// Resolved name text; absent when the record's name offset is zero.
    pub name: Option<String>,
    pub section_type: u32,
    pub flags: u64,
    pub addr: u64,
    pub offset: u64,
    pub size: u64,
    pub link: u32,
    pub info: u32,
    pub addralign: u64,
    pub entsize: u64,
}

impl View for SectionEntry {
    type V = SectionView;

    open spec fn view(&self) -> SectionView {
        SectionView {
            name: self.name.deep_view(),
            section_type: self.section_type,
            flags: self.flags,
            addr: self.addr,
            offset: self.offset,
            size: self.size,
            link: self.link,
            info: self.info,
            addralign: self.addralign,
            entsize: self.entsize,
        }
    }
}

impl SectionEntry {
    /// Decodes the 64-byte 64-bit record at `off`, resolving the name
    /// against the string table at `string_table_offset`. Fails with
    /// `OutOfBounds` exactly when the record runs past the buffer end or a
    /// non-zero name offset has no terminated string.
    pub fn decode64(blob: &Blob, off: usize, string_table_offset: u64) -> (r: Result<
        SectionEntry,
        BlobError,
    >)
        ensures
            off + 64 <= blob@.len() && section_name_ok(blob@, off as int, string_table_offset as int)
                ==> r is Ok && r->Ok_0@ == spec_section64(
                blob@,
                off as int,
                string_table_offset as int,
            ),
            !(off + 64 <= blob@.len() && section_name_ok(
                blob@,
                off as int,
                string_table_offset as int,
            )) ==> r == Err::<SectionEntry, BlobError>(BlobError::OutOfBounds),
    {
        if blob.len() < 64 || off > blob.len() - 64 {
            return Err(BlobError::OutOfBounds);
        }
        let name_off: u32 = match blob.get_u32(off) {
            Ok(v) => v,
            Err(e) => {
                return Err(e);
            },
        };
        let name: Option<String> = if name_off == 0 {
            None
        } else {
            let name_addr_wide: u128 = string_table_offset as u128 + name_off as u128;
            if name_addr_wide > blob.len() as u128 {
                return Err(BlobError::OutOfBounds);
            }
            match blob.get_cstring((string_table_offset + name_off as u64) as usize) {
                Ok(text) => Some(text),
                Err(e) => {
                    return Err(e);
                },
            }
        };
        let section_type: u32 = match blob.get_u32(off + 4) {
            Ok(v) => v,
            Err(e) => {
                return Err(e);
            },
        };
        let flags: u64 = match blob.get_u64(off + 8) {
            Ok(v) => v,
            Err(e) => {
                return Err(e);
            },
        };
        let addr: u64 = match blob.get_u64(off + 16) {
            Ok(v) => v,
            Err(e) => {
                return Err(e);
            },
        };
        let offset: u64 = match blob.get_u64(off + 24) {
            Ok(v) => v,
            Err(e) => {
                return Err(e);
            },
        };
        let size: u64 = match blob.get_u64(off + 32) {
            Ok(v) => v,
            Err(e) => {
                return Err(e);
            },
        };
        let link: u32 = match blob.get_u32(off + 40) {
            Ok(v) => v,
            Err(e) => {
                return Err(e);
            },
        };
        let info: u32 = match blob.get_u32(off + 44) {
            Ok(v) => v,
            Err(e) => {
                return Err(e);
            },
        };
        let addralign: u64 = match blob.get_u64(off + 48) {
            Ok(v) => v,
            Err(e) => {
                return Err(e);
            },
        };
        let entsize: u64 = match blob.get_u64(off + 56) {
            Ok(v) => v,
            Err(e) => {
                return Err(e);
            },
        };
        Ok(
            SectionEntry {
                name,
                section_type,
                flags,
                addr,
                offset,
                size,
                link,
                info,
                addralign,
                entsize,
            },
        )
    }

    /// Decodes the 40-byte 32-bit record at `off`; failure conditions mirror
    /// the 64-bit decoder.
    pub fn decode32(blob: &Blob, off: usize, string_table_offset: u64) -> (r: Result<
        SectionEntry,
        BlobError,
    >)
        ensures
            off + 40 <= blob@.len() && section_name_ok(blob@, off as int, string_table_offset as int)
                ==> r is Ok && r->Ok_0@ == spec_section32(
                blob@,
                off as int,
                string_table_offset as int,
            ),
            !(off + 40 <= blob@.len() && section_name_ok(
                blob@,
                off as int,
                string_table_offset as int,
            )) ==> r == Err::<SectionEntry, BlobError>(BlobError::OutOfBounds),
    {
        if blob.len() < 40 || off > blob.len() - 40 {
            return Err(BlobError::OutOfBounds);
        }
        let name_off: u32 = match blob.get_u32(off) {
            Ok(v) => v,
            Err(e) => {
                return Err(e);
            },
        };
        let name: Option<String> = if name_off == 0 {
            None
        } else {
            let name_addr_wide: u128 = string_table_offset as u128 + name_off as u128;
            if name_addr_wide > blob.len() as u128 {
                return Err(BlobError::OutOfBounds);
            }
            match blob.get_cstring((string_table_offset + name_off as u64) as usize) {
                Ok(text) => Some(text),
                Err(e) => {
                    return Err(e);
                },
            }
        };
        let section_type: u32 = match blob.get_u32(off + 4) {
            Ok(v) => v,
            Err(e) => {
                return Err(e);
            },
        };
        let flags: u32 = match blob.get_u32(off + 8) {
            Ok(v) => v,
            Err(e) => {
                return Err(e);
            },
        };
        let addr: u32 = match blob.get_u32(off + 12) {
            Ok(v) => v,
            Err(e) => {
                return Err(e);
            },
        };
        let offset: u32 = match blob.get_u32(off + 16) {
            Ok(v) => v,
            Err(e) => {
                return Err(e);
            },
        };
        let size: u32 = match blob.get_u32(off + 20) {
            Ok(v) => v,
            Err(e) => {
                return Err(e);
            },
        };
        let link: u32 = match blob.get_u32(off + 24) {
            Ok(v) => v,
            Err(e) => {
                return Err(e);
            },
        };
        let info: u32 = match blob.get_u32(off + 28) {
            Ok(v) => v,
            Err(e) => {
                return Err(e);
            },
        };
        let addralign: u32 = match blob.get_u32(off + 32) {
            Ok(v) => v,
            Err(e) => {
                return Err(e);
            },
        };
        let entsize: u32 = match blob.get_u32(off + 36) {
            Ok(v) => v,
            Err(e) => {
                return Err(e);
            },
        };
        Ok(
            SectionEntry {
                name,
                section_type,
                flags: flags as u64,
                addr: addr as u64,
                offset: offset as u64,
                size: size as u64,
                link,
                info,
                addralign: addralign as u64,
                entsize: entsize as u64,
            },
        )
    }

    /// The display cells of the record, with address-sized fields `w`
    /// hexadecimal digits wide (sixteen for the 64-bit layout, eight for
    /// the 32-bit one).
    pub fn row_cells(&self, w: usize) -> (cells: Vec<String>)
        ensures
            cells.deep_view() == section_cells(self@, w as nat),
    {
        let mut cells: Vec<String> = Vec::new();
        cells.push(name_cell_string(&self.name));
        cells.push(text::hex_literal_string(self.section_type as u64, 8));
        cells.push(text::hex_literal_string(self.flags, w));
        cells.push(text::hex_literal_string(self.addr, w));
        cells.push(text::hex_literal_string(self.offset, w));
        cells.push(text::hex_literal_string(self.size, w));
        cells.push(text::hex_literal_string(self.link as u64, 8));
        cells.push(text::hex_literal_string(self.info as u64, 8));
        cells.push(text::hex_literal_string(self.addralign, w));
        cells.push(text::hex_literal_string(self.entsize, w));
        proof {
            assert(cells.deep_view() =~~= section_cells(self@, w as nat));
        }
        cells
    }
}

} // verus!
