use rubilib::blob::{Blob, BlobError};
use rubilib::elf::symbols::{Symbol64, SymbolBinding, SymbolType};
use rubilib::elf::{ElfBinary, ElfError};
use rubilib::table::TableType;

fn put_u16(buf: &mut Vec<u8>, at: usize, v: u16) {
    buf[at..at + 2].copy_from_slice(&v.to_le_bytes());
}

fn put_u32(buf: &mut Vec<u8>, at: usize, v: u32) {
    buf[at..at + 4].copy_from_slice(&v.to_le_bytes());
}

fn put_u64(buf: &mut Vec<u8>, at: usize, v: u64) {
    buf[at..at + 8].copy_from_slice(&v.to_le_bytes());
}

/// A string table shared by section names and symbol names:
/// offset 1 holds ".strtab", offset 9 holds "main", offset 14 a zero byte.
fn strtab() -> Vec<u8> {
    let mut t = vec![0u8];
    t.extend_from_slice(b".strtab\0");
    t.extend_from_slice(b"main\0");
    t.push(0);
    t
}

/// A synthetic 64-bit ELF: a 64-byte header, two 64-byte section headers
/// (a string table and a symbol table of the given section type), the
/// string table, then the symbol records.
fn elf64_with_symbols(symtab_type: u32, syms: &[(u32, u8, u8, u16, u64, u64)]) -> Vec<u8> {
    let strings = strtab();
    let sh_off = 64usize;
    let str_off = sh_off + 2 * 64;
    let sym_off = str_off + strings.len();
    let mut b = vec![0u8; sym_off + syms.len() * 24];
    b[0] = 0x7f;
    b[1] = b'E';
    b[2] = b'L';
    b[3] = b'F';
    b[4] = 2; // 64-bit
    b[5] = 1; // little-endian
    put_u16(&mut b, 16, 2); // executable
    put_u16(&mut b, 18, 0x3e);
    put_u64(&mut b, 24, 0x401000); // entry point
    put_u64(&mut b, 32, 0); // program-header table offset
    put_u64(&mut b, 40, sh_off as u64);
    put_u16(&mut b, 54, 56); // program-header entry size
    put_u16(&mut b, 56, 0); // program-header count
    put_u16(&mut b, 58, 64); // section-header entry size
    put_u16(&mut b, 60, 2); // section-header count
    put_u16(&mut b, 62, 0); // section-name table index
    // Section 0: the string table, named ".strtab".
    put_u32(&mut b, sh_off, 1);
    put_u32(&mut b, sh_off + 4, 3);
    put_u64(&mut b, sh_off + 24, str_off as u64);
    put_u64(&mut b, sh_off + 32, strings.len() as u64);
    // Section 1: the symbol table, unnamed, paired with section 0.
    put_u32(&mut b, sh_off + 64, 0);
    put_u32(&mut b, sh_off + 64 + 4, symtab_type);
    put_u64(&mut b, sh_off + 64 + 24, sym_off as u64);
    put_u64(&mut b, sh_off + 64 + 32, (syms.len() * 24) as u64);
    put_u32(&mut b, sh_off + 64 + 40, 0);
    b[str_off..str_off + strings.len()].copy_from_slice(&strings);
    for (i, &(name, info, other, shndx, value, size)) in syms.iter().enumerate() {
        let at = sym_off + i * 24;
        put_u32(&mut b, at, name);
        b[at + 4] = info;
        b[at + 5] = other;
        put_u16(&mut b, at + 6, shndx);
        put_u64(&mut b, at + 8, value);
        put_u64(&mut b, at + 16, size);
    }
    b
}

#[test]
fn corrupt_headers_are_rejected() {
    // ELF magic with a recognized class but too few bytes for the header.
    let short64 = vec![0x7f, b'E', b'L', b'F', 2, 1, 0, 0];
    assert!(matches!(
        ElfBinary::new(Blob::new(short64)),
        Err(ElfError::CorruptHeader)
    ));
    let short32 = vec![0x7f, b'E', b'L', b'F', 1, 1, 0, 0];
    assert!(matches!(
        ElfBinary::new(Blob::new(short32)),
        Err(ElfError::CorruptHeader)
    ));
    // ELF magic with an unrecognized class byte.
    let mut bad_class = elf64_with_symbols(2, &[]);
    bad_class[4] = 9;
    assert!(matches!(
        ElfBinary::new(Blob::new(bad_class)),
        Err(ElfError::CorruptHeader)
    ));
    // No ELF magic at all.
    assert!(matches!(
        ElfBinary::new(Blob::new(vec![b'M', b'Z', 0, 0, 0])),
        Err(ElfError::NoElfBinary)
    ));
}

#[test]
fn header_info_reports_identification_fields() {
    let elf = ElfBinary::new(Blob::new(elf64_with_symbols(2, &[]))).unwrap();
    let info = elf.header_info();
    assert_eq!(info.len(), 12);
    assert_eq!(info[0], ("Class".to_string(), "ELF64".to_string()));
    assert_eq!(info[1], ("Data".to_string(), "little endian".to_string()));
    assert_eq!(info[2], ("Type".to_string(), "0x0002".to_string()));
    assert_eq!(info[3], ("Machine".to_string(), "0x003e".to_string()));
    assert_eq!(
        info[4],
        ("Entry point".to_string(), "0x0000000000401000".to_string())
    );
    assert_eq!(info[10], ("Section header count".to_string(), "0x0002".to_string()));
}

#[test]
fn section_headers_table_decodes_both_sections() {
    let elf = ElfBinary::new(Blob::new(elf64_with_symbols(2, &[]))).unwrap();
    let table = elf.section_headers_table().unwrap();
    assert_eq!(table.table_type, TableType::ElfSectionHeader);
    assert_eq!(table.headline.len(), 10);
    assert_eq!(table.headline[0], "Name");
    assert_eq!(table.headline[9], "Entry size");
    assert_eq!(table.rows.len(), 2);
    let row0 = &table.rows[0].content;
    assert_eq!(row0[0], ".strtab");
    assert_eq!(row0[1], "0x00000003");
    assert_eq!(row0[4], "0x00000000000000c0"); // file offset 192
    assert_eq!(row0[5], "0x000000000000000f"); // 15 bytes of strings
    let row1 = &table.rows[1].content;
    assert_eq!(row1[0], "*unnamed*");
    assert_eq!(row1[1], "0x00000002");
}

#[test]
fn oversized_section_count_is_rejected_whole() {
    // The declared count, times the entry size, plus the base, passes the
    // end of the buffer: the walk must fail, not return a partial table.
    let mut data = elf64_with_symbols(2, &[]);
    put_u16(&mut data, 60, 0xffff);
    let elf = ElfBinary::new(Blob::new(data)).unwrap();
    assert!(matches!(
        elf.section_headers_table(),
        Err(ElfError::BlobCorrupted(BlobError::OutOfBounds))
    ));
}

#[test]
fn symbols_table_returns_one_row_per_record_in_order() {
    let syms = [
        (9u32, 0x12u8, 0u8, 1u16, 0x1000u64, 0x20u64), // "main", Global Func
        (0, 0x00, 0, 0, 0, 0),                         // unnamed, Local NoType
        (14, 0x21, 7, 2, 5, 6),                        // empty name, Weak Object
    ];
    let elf = ElfBinary::new(Blob::new(elf64_with_symbols(2, &syms))).unwrap();
    let table = elf.symbols_table().unwrap();
    assert_eq!(table.table_type, TableType::ElfSymbols);
    assert_eq!(table.rows.len(), 3);
    let row0 = &table.rows[0].content;
    assert_eq!(row0[0], "Func");
    assert_eq!(row0[1], "Global");
    assert_eq!(row0[2], "0x00");
    assert_eq!(row0[3], "0x0000000000001000");
    assert_eq!(row0[4], "0x0000000000000020");
    assert_eq!(row0[5], "0x0001");
    assert_eq!(row0[6], "main");
    let row1 = &table.rows[1].content;
    assert_eq!(row1[0], "NoType");
    assert_eq!(row1[1], "Local");
    assert_eq!(row1[6], "*unnamed*");
    let row2 = &table.rows[2].content;
    assert_eq!(row2[0], "Object");
    assert_eq!(row2[1], "Weak");
    assert_eq!(row2[6], "*empty*");
}

#[test]
fn out_of_range_codes_render_unknown_without_failing() {
    // Low nibble 0xf is no known type, high nibble 0xf no known binding;
    // the record still decodes and every other field is normal.
    let syms = [(9u32, 0xffu8, 3u8, 4u16, 0x77u64, 0x88u64)];
    let elf = ElfBinary::new(Blob::new(elf64_with_symbols(2, &syms))).unwrap();
    let table = elf.symbols_table().unwrap();
    assert_eq!(table.rows.len(), 1);
    let row = &table.rows[0].content;
    assert_eq!(row[0], "Unknown");
    assert_eq!(row[1], "Unknown");
    assert_eq!(row[2], "0x03");
    assert_eq!(row[3], "0x0000000000000077");
    assert_eq!(row[4], "0x0000000000000088");
    assert_eq!(row[5], "0x0004");
    assert_eq!(row[6], "main");
}

#[test]
fn symbol_decode_reads_one_record() {
    let data = elf64_with_symbols(2, &[(9, 0x12, 0, 1, 0x1000, 0x20)]);
    let sym_off = 64 + 2 * 64 + strtab().len();
    let blob = Blob::new(data);
    let sym = Symbol64::decode(&blob, sym_off, (64 + 2 * 64) as u64).unwrap();
    assert_eq!(sym.name, Some("main".to_string()));
    assert_eq!(sym.symbol_type, SymbolType::Func);
    assert_eq!(sym.binding, SymbolBinding::Global);
    assert_eq!(sym.index, 1);
    assert_eq!(sym.value, 0x1000);
    assert_eq!(sym.size, 0x20);
    // A record past the buffer end fails with OutOfBounds.
    assert!(matches!(
        Symbol64::decode(&blob, usize::MAX - 100, 0),
        Err(BlobError::OutOfBounds)
    ));
}

#[test]
fn dynamic_symbols_come_from_the_dynsym_section_type() {
    let syms = [(9u32, 0x12u8, 0u8, 1u16, 0x1000u64, 0x20u64)];
    let dyn_elf = ElfBinary::new(Blob::new(elf64_with_symbols(11, &syms))).unwrap();
    let table = dyn_elf.dyn_symbols_table().unwrap();
    assert_eq!(table.table_type, TableType::ElfDynamicSymbols);
    assert_eq!(table.rows.len(), 1);
    assert_eq!(table.rows[0].content[6], "main");
    // The same buffer holds no full symbol table, and the other way round.
    assert!(matches!(
        dyn_elf.symbols_table(),
        Err(ElfError::NoSymbolTable)
    ));
    let full_elf = ElfBinary::new(Blob::new(elf64_with_symbols(2, &syms))).unwrap();
    assert!(matches!(
        full_elf.dyn_symbols_table(),
        Err(ElfError::NoSymbolTable)
    ));
}

#[test]
fn section_headers_table_is_idempotent() {
    // Two walks over the unchanged buffer return identical content.
    let syms = [(9u32, 0x12u8, 0u8, 1u16, 0x1000u64, 0x20u64)];
    let elf = ElfBinary::new(Blob::new(elf64_with_symbols(2, &syms))).unwrap();
    let first = elf.section_headers_table().unwrap();
    let second = elf.section_headers_table().unwrap();
    assert_eq!(first.table_type, second.table_type);
    assert_eq!(first.headline, second.headline);
    assert_eq!(first.rows.len(), second.rows.len());
    for (a, b) in first.rows.iter().zip(second.rows.iter()) {
        assert_eq!(a.content, b.content);
    }
}

#[test]
fn truncated_symbol_table_is_rejected() {
    // The symbol section claims more records than the buffer holds.
    let mut data = elf64_with_symbols(2, &[(9, 0x12, 0, 1, 0x1000, 0x20)]);
    put_u64(&mut data, 64 + 64 + 32, 0x10000);
    let elf = ElfBinary::new(Blob::new(data)).unwrap();
    assert!(matches!(
        elf.symbols_table(),
        Err(ElfError::BlobCorrupted(BlobError::OutOfBounds))
    ));
}
