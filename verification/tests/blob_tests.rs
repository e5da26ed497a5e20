use rubilib::blob::{BinaryType, Blob, BlobError, ElfClass};

#[test]
fn short_buffers_classify_as_unknown() {
    // Any buffer shorter than four bytes is unknown, never an error.
    let cases: Vec<Vec<u8>> = vec![
        vec![],
        vec![0x7f],
        vec![0x7f, b'E'],
        vec![0x7f, b'E', b'L'],
        vec![b'M', b'Z'],
        vec![b'M', b'Z', 0x90],
        vec![0xff, 0xfe, 0xfd],
    ];
    for data in cases {
        let blob = Blob::new(data);
        assert_eq!(blob.bin_type(), BinaryType::Unknown);
    }
}

#[test]
fn elf_magic_classifies_with_class_byte() {
    let blob = Blob::new(vec![0x7f, b'E', b'L', b'F', 1, 1, 1, 0]);
    assert_eq!(blob.bin_type(), BinaryType::Elf(ElfClass::Class32));
    let blob = Blob::new(vec![0x7f, b'E', b'L', b'F', 2, 1, 1, 0]);
    assert_eq!(blob.bin_type(), BinaryType::Elf(ElfClass::Class64));
    let blob = Blob::new(vec![0x7f, b'E', b'L', b'F', 9, 1, 1, 0]);
    assert_eq!(blob.bin_type(), BinaryType::Elf(ElfClass::Unrecognized));
    // The magic alone, with no class byte at all, is still ELF.
    let blob = Blob::new(vec![0x7f, b'E', b'L', b'F']);
    assert_eq!(blob.bin_type(), BinaryType::Elf(ElfClass::Unrecognized));
}

#[test]
fn pe_magic_classifies_as_pe() {
    let blob = Blob::new(vec![b'M', b'Z', 0x90, 0x00, 0x03]);
    assert_eq!(blob.bin_type(), BinaryType::Pe);
}

#[test]
fn wrong_magic_classifies_as_unknown() {
    let blob = Blob::new(vec![0x7f, b'E', b'L', b'G', 2]);
    assert_eq!(blob.bin_type(), BinaryType::Unknown);
    let blob = Blob::new(vec![b'Z', b'M', 0, 0]);
    assert_eq!(blob.bin_type(), BinaryType::Unknown);
}

#[test]
fn reads_decode_little_endian_exactly() {
    // Round trip: encode known little-endian values, decode, compare.
    let blob = Blob::new(vec![0x01, 0x02, 0x03, 0x04, 0x05, 0x06, 0x07, 0x08]);
    assert_eq!(blob.len(), 8);
    assert_eq!(blob.get_u8(0), Ok(0x01));
    assert_eq!(blob.get_u8(7), Ok(0x08));
    assert_eq!(blob.get_u16(0), Ok(0x0201));
    assert_eq!(blob.get_u16(6), Ok(0x0807));
    assert_eq!(blob.get_u32(0), Ok(0x04030201));
    assert_eq!(blob.get_u32(3), Ok(0x07060504));
    assert_eq!(blob.get_u64(0), Ok(0x0807060504030201));
    let encoded = 0xdead_beef_u32.to_le_bytes().to_vec();
    let blob = Blob::new(encoded);
    assert_eq!(blob.get_u32(0), Ok(0xdead_beef));
}

#[test]
fn reads_past_the_end_fail_with_out_of_bounds() {
    let blob = Blob::new(vec![0xaa, 0xbb, 0xcc]);
    assert_eq!(blob.get_u8(3), Err(BlobError::OutOfBounds));
    assert_eq!(blob.get_u16(2), Err(BlobError::OutOfBounds));
    assert_eq!(blob.get_u32(0), Err(BlobError::OutOfBounds));
    assert_eq!(blob.get_u64(0), Err(BlobError::OutOfBounds));
    // The last in-range offset of each width still succeeds.
    assert_eq!(blob.get_u16(1), Ok(0xccbb));
    let empty = Blob::new(vec![]);
    assert_eq!(empty.get_u8(0), Err(BlobError::OutOfBounds));
}

#[test]
fn cstring_reads_to_the_terminator() {
    let blob = Blob::new(vec![b'a', b'b', b'c', 0, b'd', 0]);
    assert_eq!(blob.get_cstring(0), Ok(String::from("abc")));
    assert_eq!(blob.get_cstring(1), Ok(String::from("bc")));
    assert_eq!(blob.get_cstring(3), Ok(String::from("")));
    assert_eq!(blob.get_cstring(4), Ok(String::from("d")));
}

#[test]
fn unterminated_cstring_fails_with_out_of_bounds() {
    let blob = Blob::new(vec![b'a', b'b', b'c']);
    assert_eq!(blob.get_cstring(0), Err(BlobError::OutOfBounds));
    assert_eq!(blob.get_cstring(3), Err(BlobError::OutOfBounds));
    assert_eq!(blob.get_cstring(100), Err(BlobError::OutOfBounds));
}

#[test]
fn cstring_replaces_non_ascii_bytes() {
    let blob = Blob::new(vec![b'a', 0xc3, b'b', 0]);
    assert_eq!(blob.get_cstring(0), Ok(String::from("a\u{FFFD}b")));
}
