use rubilib::blob::Blob;
use rubilib::elf::ElfBinary;
use rubilib::table::TableType;

fn put_u16(buf: &mut Vec<u8>, at: usize, v: u16) {
    buf[at..at + 2].copy_from_slice(&v.to_le_bytes());
}

fn put_u32(buf: &mut Vec<u8>, at: usize, v: u32) {
    buf[at..at + 4].copy_from_slice(&v.to_le_bytes());
}

/// A synthetic 32-bit ELF: a 52-byte header, two 40-byte section headers
/// (a string table and a full symbol table), the string table, then one
/// 16-byte symbol record.
fn elf32_with_symbol() -> Vec<u8> {
    let strings: Vec<u8> = {
        let mut t = vec![0u8];
        t.extend_from_slice(b".strtab\0");
        t.extend_from_slice(b"main\0");
        t
    };
    let sh_off = 52usize;
    let str_off = sh_off + 2 * 40;
    let sym_off = str_off + strings.len();
    let mut b = vec![0u8; sym_off + 16];
    b[0] = 0x7f;
    b[1] = b'E';
    b[2] = b'L';
    b[3] = b'F';
    b[4] = 1; // 32-bit
    b[5] = 1; // little-endian
    put_u16(&mut b, 16, 3); // shared object
    put_u16(&mut b, 18, 3); // i386
    put_u32(&mut b, 24, 0x8048000); // entry point
    put_u32(&mut b, 32, sh_off as u32);
    put_u16(&mut b, 46, 40); // section-header entry size
    put_u16(&mut b, 48, 2); // section-header count
    put_u16(&mut b, 50, 0); // section-name table index
    // Section 0: the string table, named ".strtab".
    put_u32(&mut b, sh_off, 1);
    put_u32(&mut b, sh_off + 4, 3);
    put_u32(&mut b, sh_off + 16, str_off as u32);
    put_u32(&mut b, sh_off + 20, strings.len() as u32);
    // Section 1: the symbol table, unnamed, paired with section 0.
    put_u32(&mut b, sh_off + 40, 0);
    put_u32(&mut b, sh_off + 40 + 4, 2);
    put_u32(&mut b, sh_off + 40 + 16, sym_off as u32);
    put_u32(&mut b, sh_off + 40 + 20, 16);
    put_u32(&mut b, sh_off + 40 + 24, 0);
    b[str_off..str_off + strings.len()].copy_from_slice(&strings);
    // One symbol: name "main", info Global Func, value and size four bytes.
    put_u32(&mut b, sym_off, 9);
    b[sym_off + 4] = 0x12;
    b[sym_off + 5] = 0;
    put_u16(&mut b, sym_off + 6, 1);
    put_u32(&mut b, sym_off + 8, 0x1234);
    put_u32(&mut b, sym_off + 12, 0x56);
    b
}

#[test]
fn header_info_reports_the_32_bit_class() {
    let elf = ElfBinary::new(Blob::new(elf32_with_symbol())).unwrap();
    let info = elf.header_info();
    assert_eq!(info[0], ("Class".to_string(), "ELF32".to_string()));
    assert_eq!(info[1], ("Data".to_string(), "little endian".to_string()));
    assert_eq!(
        info[4],
        ("Entry point".to_string(), "0x0000000008048000".to_string())
    );
}

#[test]
fn sections_render_at_the_narrow_width() {
    let elf = ElfBinary::new(Blob::new(elf32_with_symbol())).unwrap();
    let table = elf.section_headers_table().unwrap();
    assert_eq!(table.rows.len(), 2);
    let row0 = &table.rows[0].content;
    assert_eq!(row0[0], ".strtab");
    assert_eq!(row0[1], "0x00000003");
    assert_eq!(row0[4], "0x00000084"); // file offset 132, eight digits
    let row1 = &table.rows[1].content;
    assert_eq!(row1[0], "*unnamed*");
}

#[test]
fn symbols_render_at_the_narrow_width() {
    let elf = ElfBinary::new(Blob::new(elf32_with_symbol())).unwrap();
    let table = elf.symbols_table().unwrap();
    assert_eq!(table.table_type, TableType::ElfSymbols);
    assert_eq!(table.rows.len(), 1);
    let row = &table.rows[0].content;
    assert_eq!(row[0], "Func");
    assert_eq!(row[1], "Global");
    assert_eq!(row[3], "0x00001234");
    assert_eq!(row[4], "0x00000056");
    assert_eq!(row[6], "main");
}
