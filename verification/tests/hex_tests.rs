use rubilib::blob::Blob;
use rubilib::hex::HexBinary;
use rubilib::table::{RowAction, TableType};

#[test]
fn seventeen_bytes_make_two_rows() {
    // Sixteen printable bytes, then one unprintable byte.
    let mut data: Vec<u8> = b"ABCDEFGHIJKLMNOP".to_vec();
    data.push(0x01);
    let hex = HexBinary::new(Blob::new(data));
    let table = hex.as_hex_table(16).unwrap();
    assert_eq!(table.table_type, TableType::Hex);
    assert_eq!(table.headline.len(), 3);
    assert_eq!(table.headline[0], "Offset");
    assert_eq!(table.headline[1], "");
    assert_eq!(table.headline[2], "ASCII");
    assert_eq!(table.rows.len(), 2);
    let row0 = &table.rows[0];
    assert!(matches!(row0.action, RowAction::Inert));
    assert_eq!(row0.content[0], "0x0000000000000000");
    assert_eq!(
        row0.content[1],
        "41 42 43 44 45 46 47 48 49 4A 4B 4C 4D 4E 4F 50"
    );
    assert_eq!(row0.content[2], "ABCDEFGHIJKLMNOP");
    let row1 = &table.rows[1];
    assert_eq!(row1.content[0], "0x0000000000000010");
    assert_eq!(row1.content[1], "01");
    assert_eq!(row1.content[2], ".");
}

#[test]
fn ascii_column_substitutes_dots_outside_printable_range() {
    // 0x1F is below the printable range, 0x7F above it, 0x20 and 0x7E inside.
    let hex = HexBinary::new(Blob::new(vec![0x1f, 0x20, 0x7e, 0x7f, 0xff]));
    let table = hex.as_hex_table(16).unwrap();
    assert_eq!(table.rows.len(), 1);
    assert_eq!(table.rows[0].content[1], "1F 20 7E 7F FF");
    assert_eq!(table.rows[0].content[2], ". ~..");
}

#[test]
fn zero_bytes_per_line_is_clamped_to_the_default() {
    let data: Vec<u8> = (0u8..40).collect();
    let hex = HexBinary::new(Blob::new(data.clone()));
    let clamped = hex.as_hex_table(0).unwrap();
    let sixteen = hex.as_hex_table(16).unwrap();
    assert_eq!(clamped.rows.len(), 3);
    assert_eq!(clamped.rows.len(), sixteen.rows.len());
    for (a, b) in clamped.rows.iter().zip(sixteen.rows.iter()) {
        assert_eq!(a.content, b.content);
    }
}

#[test]
fn empty_buffer_dumps_no_rows() {
    let hex = HexBinary::new(Blob::new(vec![]));
    let table = hex.as_hex_table(16).unwrap();
    assert_eq!(table.rows.len(), 0);
}

#[test]
fn narrow_lines_split_rows() {
    let hex = HexBinary::new(Blob::new(vec![0x41, 0x42, 0x43]));
    let table = hex.as_hex_table(2).unwrap();
    assert_eq!(table.rows.len(), 2);
    assert_eq!(table.rows[0].content[1], "41 42");
    assert_eq!(table.rows[0].content[2], "AB");
    assert_eq!(table.rows[1].content[0], "0x0000000000000002");
    assert_eq!(table.rows[1].content[1], "43");
}

#[test]
fn hex_header_info_reports_unknown_file() {
    let hex = HexBinary::new(Blob::new(vec![1, 2, 3]));
    let info = hex.header_info();
    assert_eq!(info.len(), 1);
    assert_eq!(info[0].0, "Ident");
    assert_eq!(info[0].1, "Unknown file");
}

#[test]
fn table_type_labels() {
    assert_eq!(TableType::Hex.label(), "HEX table");
    assert_eq!(TableType::ElfSectionHeader.label(), "ELF section headers");
    assert_eq!(TableType::ElfSymbols.label(), "ELF symbol table");
    assert_eq!(
        TableType::ElfDynamicSymbols.label(),
        "ELF dynamic symbols table"
    );
}
