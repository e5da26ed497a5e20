use rubilib::binary::{Binary, BinaryError};
use rubilib::blob::Blob;
use rubilib::elf::ElfError;
use rubilib::pe::{PeBinary, PeError};

fn minimal_elf64() -> Vec<u8> {
    let mut b = vec![0u8; 64];
    b[0] = 0x7f;
    b[1] = b'E';
    b[2] = b'L';
    b[3] = b'F';
    b[4] = 2;
    b[5] = 1;
    b
}

#[test]
fn classification_picks_the_decoder() {
    let elf = Binary::new(Blob::new(minimal_elf64())).unwrap();
    assert_eq!(elf.file_type(), "elf");
    let pe = Binary::new(Blob::new(vec![b'M', b'Z', 0x90, 0])).unwrap();
    assert_eq!(pe.file_type(), "pe");
    let unknown = Binary::new(Blob::new(vec![1, 2, 3, 4])).unwrap();
    assert_eq!(unknown.file_type(), "unknown");
}

#[test]
fn corrupt_elf_fails_construction() {
    // ELF magic, recognized class, but a truncated header.
    let truncated = vec![0x7f, b'E', b'L', b'F', 2, 1, 0, 0];
    assert!(matches!(
        Binary::new(Blob::new(truncated)),
        Err(BinaryError::NoElfBinary(ElfError::CorruptHeader))
    ));
}

#[test]
fn replacing_with_a_corrupt_buffer_keeps_the_old_state() {
    let mut binary = Binary::new(Blob::new(minimal_elf64())).unwrap();
    assert_eq!(binary.file_type(), "elf");
    let info_before = binary.file_info();
    // A truncated ELF buffer must not replace the loaded binary.
    let truncated = vec![0x7f, b'E', b'L', b'F', 2, 1, 0, 0];
    let result = binary.update(Blob::new(truncated));
    assert!(matches!(
        result,
        Err(BinaryError::NoElfBinary(ElfError::CorruptHeader))
    ));
    assert_eq!(binary.file_type(), "elf");
    assert_eq!(binary.file_info(), info_before);
}

#[test]
fn replacing_with_a_valid_buffer_swaps_the_state() {
    let mut binary = Binary::new(Blob::new(minimal_elf64())).unwrap();
    binary.update(Blob::new(vec![b'M', b'Z', 0, 0])).unwrap();
    assert_eq!(binary.file_type(), "pe");
    binary.update(Blob::new(vec![9, 9])).unwrap();
    assert_eq!(binary.file_type(), "unknown");
}

#[test]
fn file_info_matches_the_variant() {
    let elf = Binary::new(Blob::new(minimal_elf64())).unwrap();
    let info = elf.file_info();
    assert_eq!(info[0], ("Class".to_string(), "ELF64".to_string()));
    let pe = Binary::new(Blob::new(vec![b'M', b'Z', 0, 0])).unwrap();
    assert_eq!(
        pe.file_info(),
        vec![("Ident".to_string(), "Windows PE binary".to_string())]
    );
    let unknown = Binary::new(Blob::new(vec![5, 6, 7, 8])).unwrap();
    assert_eq!(
        unknown.file_info(),
        vec![("Ident".to_string(), "Unknown binary".to_string())]
    );
}

#[test]
fn default_binary_is_an_empty_unknown() {
    let binary = Binary::default();
    assert_eq!(binary.file_type(), "unknown");
}

#[test]
fn pe_construction_checks_the_magic() {
    assert!(matches!(
        PeBinary::new(Blob::new(vec![1, 2, 3, 4])),
        Err(PeError::NoPeBinary)
    ));
    let pe = PeBinary::new(Blob::new(vec![b'M', b'Z', 0, 0])).unwrap();
    let info = pe.header_info();
    assert_eq!(info[0].0, "Ident");
    assert_eq!(info[0].1, "Windows PE binary");
}
